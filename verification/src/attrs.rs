//! The annotation data model: one value per parsed annotation occurrence,
//! and the raw annotation blocks they are collected from.

use vstd::prelude::*;
use crate::span::Span;
use crate::error::{SpanError, SpanErrorV};

verus! {

/// The annotation kinds, one tag per directive.
#[derive(Clone, Copy, PartialEq, Eq, Structural, Debug)]
pub enum AttrKind {
    Big,
    Little,
    Default,
    Ignore,
    DerefNow,
    RestorePosition,
    PostProcessNow,
    Try,
    Temp,
    MapFn,
    ParseWith,
    Magic,
    Args,
    ArgsTuple,
    Assert,
    Calc,
    Count,
    IsLittle,
    IsBig,
    Offset,
    OffsetAfter,
    If,
    PadBefore,
    PadAfter,
    AlignBefore,
    AlignAfter,
    SeekBefore,
    PadSizeTo,
}

/// The kind-dependent payload of one occurrence: nothing for a presence
/// flag, a literal, an opaque deferred source fragment carried to the
/// downstream generator uninterpreted, or an ordered argument list of such
/// fragments.
#[derive(PartialEq, Debug)]
pub enum Payload {
    Absent,
    Lit(String),
    Expr(String),
    List(Vec<String>),
}

/// The mathematical model of a `Payload`.
pub enum PayloadV {
    Absent,
    Lit(Seq<char>),
    Expr(Seq<char>),
    List(Seq<Seq<char>>),
}

impl View for Payload {
    type V = PayloadV;

    open spec fn view(&self) -> PayloadV {
        match self {
            Payload::Absent => PayloadV::Absent,
            Payload::Lit(s) => PayloadV::Lit(s@),
            Payload::Expr(s) => PayloadV::Expr(s@),
            Payload::List(v) => PayloadV::List(v.deep_view()),
        }
    }
}

pub(crate) fn clone_strings(v: &Vec<String>) -> (r: Vec<String>)
    ensures
        r.deep_view() == v.deep_view(),
{
    let mut r: Vec<String> = Vec::new();
    let mut i: usize = 0;
    while i < v.len()
        invariant
            i <= v.len(),
            r@.len() == i as int,
            forall|j: int| 0 <= j < i as int ==> #[trigger] r@[j]@ == v@[j]@,
        decreases v.len() - i,
    {
        let s: String = v[i].clone();
        r.push(s);
        i = i + 1;
    }
    proof {
        assert(r.deep_view() =~~= v.deep_view());
    }
    r
}

impl Clone for Payload {
    fn clone(&self) -> (r: Self)
        ensures
            r@ == self@,
    {
        match self {
            Payload::Absent => Payload::Absent,
            Payload::Lit(s) => Payload::Lit(s.clone()),
            Payload::Expr(s) => Payload::Expr(s.clone()),
            Payload::List(v) => Payload::List(clone_strings(v)),
        }
    }
}

/// One parsed annotation occurrence: its kind, its payload, and the span of
/// the occurrence in the original source.
#[derive(PartialEq, Debug)]
pub struct AnnotationValue {
    pub kind: AttrKind,
    pub payload: Payload,
    pub span: Span,
}

/// The mathematical model of an `AnnotationValue`.
pub struct AttrV {
    pub kind: AttrKind,
    pub payload: PayloadV,
    pub span: Span,
}

impl View for AnnotationValue {
    type V = AttrV;

    open spec fn view(&self) -> AttrV {
        AttrV { kind: self.kind, payload: self.payload@, span: self.span }
    }
}

impl Clone for AnnotationValue {
    fn clone(&self) -> (r: Self)
        ensures
            r@ == self@,
    {
        AnnotationValue { kind: self.kind, payload: self.payload.clone(), span: self.span }
    }
}

/// The models of a sequence of occurrences, in the same order.
pub open spec fn views_of(s: Seq<AnnotationValue>) -> Seq<AttrV> {
    s.map_values(|a: AnnotationValue| a@)
}

/// One raw annotation block on a field: its namespace identifier, and the
/// embedded grammar's parse of its token content. The grammar is an external
/// collaborator; this crate consumes only its typed results.
#[derive(PartialEq, Debug)]
pub struct AttrBlock {
    pub path: String,
    pub parsed: Result<Vec<AnnotationValue>, SpanError>,
}

/// The mathematical model of an `AttrBlock`.
pub struct BlockV {
    pub path: Seq<char>,
    pub parsed: Result<Seq<AttrV>, SpanErrorV>,
}

impl View for AttrBlock {
    type V = BlockV;

    open spec fn view(&self) -> BlockV {
        BlockV {
            path: self.path@,
            parsed: match &self.parsed {
                Ok(vals) => Ok(views_of(vals@)),
                Err(e) => Err(e@),
            },
        }
    }
}

/// One field together with its ordered annotation blocks; the input of one
/// resolution pass.
#[derive(PartialEq, Debug)]
pub struct Field {
    pub attrs: Vec<AttrBlock>,
}

impl View for Field {
    type V = Seq<BlockV>;

    open spec fn view(&self) -> Seq<BlockV> {
        self.attrs@.map_values(|b: AttrBlock| b@)
    }
}

} // verus!
