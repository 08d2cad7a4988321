//! The resolved field descriptor: one conflict-free configuration per field,
//! handed to the downstream generator.

use vstd::prelude::*;
use crate::span::{Span, SpannedValue};

verus! {

/// How arguments are passed to the inner parser: an explicit ordered list,
/// or one tuple-style argument expression. The two forms are mutually
/// exclusive on one field.
#[derive(PartialEq, Debug)]
pub enum PassedArgs {
    List(Vec<String>),
    Tuple(String),
}

/// The mathematical model of `PassedArgs`.
pub enum PassedArgsV {
    List(Seq<Seq<char>>),
    Tuple(Seq<char>),
}

impl View for PassedArgs {
    type V = PassedArgsV;

    open spec fn view(&self) -> PassedArgsV {
        match self {
            PassedArgs::List(v) => PassedArgsV::List(v.deep_view()),
            PassedArgs::Tuple(s) => PassedArgsV::Tuple(s@),
        }
    }
}

impl Default for PassedArgs {
    /// No argument annotation at all defaults to the empty ordered list.
    fn default() -> (r: Self)
        ensures
            r@ == PassedArgsV::List(Seq::<Seq<char>>::empty()),
    {
        let inner: Vec<String> = Vec::new();
        proof {
            assert(inner.deep_view() =~= Seq::<Seq<char>>::empty());
        }
        PassedArgs::List(inner)
    }
}

/// One assertion annotation, collected for the downstream generator;
/// resolution of assertions is deferred, so a descriptor always carries an
/// empty assertion sequence in this pass.
#[derive(PartialEq, Debug)]
pub struct Assert {
    pub expr: String,
    pub span: Span,
}

/// The mathematical model of an `Assert`.
pub struct AssertV {
    pub expr: Seq<char>,
    pub span: Span,
}

impl View for Assert {
    type V = AssertV;

    open spec fn view(&self) -> AssertV {
        AssertV { expr: self.expr@, span: self.span }
    }
}

impl DeepView for Assert {
    type V = AssertV;

    open spec fn deep_view(&self) -> AssertV {
        self.view()
    }
}

/// The resolved configuration of one field: every boolean flag, every
/// optional single value, and the argument passing form.
#[derive(PartialEq, Debug)]
pub struct FieldLevelAttrs {
    pub args: PassedArgs,
    pub map: Option<String>,
    pub ignore: bool,
    pub default: bool,
    pub calc: Option<String>,
    pub count: Option<String>,
    pub offset: Option<String>,
    pub offset_after: Option<String>,
    pub if_cond: Option<String>,
    pub deref_now: bool,
    pub postprocess_now: bool,
    pub restore_position: bool,
    pub do_try: bool,
    pub temp: bool,
    pub little: SpannedValue<bool>,
    pub big: SpannedValue<bool>,
    pub is_big: Option<String>,
    pub is_little: Option<String>,
    pub asserts: Vec<Assert>,
    pub magic: Option<String>,
    pub pad_before: Option<String>,
    pub pad_after: Option<String>,
    pub align_before: Option<String>,
    pub align_after: Option<String>,
    pub seek_before: Option<String>,
    pub pad_size_to: Option<String>,
    pub parse_with: Option<String>,
}

/// The mathematical model of a `FieldLevelAttrs`.
#[verifier::ext_equal]
pub struct FieldLevelAttrsV {
    pub args: PassedArgsV,
    pub map: Option<Seq<char>>,
    pub ignore: bool,
    pub default: bool,
    pub calc: Option<Seq<char>>,
    pub count: Option<Seq<char>>,
    pub offset: Option<Seq<char>>,
    pub offset_after: Option<Seq<char>>,
    pub if_cond: Option<Seq<char>>,
    pub deref_now: bool,
    pub postprocess_now: bool,
    pub restore_position: bool,
    pub do_try: bool,
    pub temp: bool,
    pub little: SpannedValue<bool>,
    pub big: SpannedValue<bool>,
    pub is_big: Option<Seq<char>>,
    pub is_little: Option<Seq<char>>,
    pub asserts: Seq<AssertV>,
    pub magic: Option<Seq<char>>,
    pub pad_before: Option<Seq<char>>,
    pub pad_after: Option<Seq<char>>,
    pub align_before: Option<Seq<char>>,
    pub align_after: Option<Seq<char>>,
    pub seek_before: Option<Seq<char>>,
    pub pad_size_to: Option<Seq<char>>,
    pub parse_with: Option<Seq<char>>,
}

impl View for FieldLevelAttrs {
    type V = FieldLevelAttrsV;

    open spec fn view(&self) -> FieldLevelAttrsV {
        FieldLevelAttrsV {
            args: self.args@,
            map: self.map.deep_view(),
            ignore: self.ignore,
            default: self.default,
            calc: self.calc.deep_view(),
            count: self.count.deep_view(),
            offset: self.offset.deep_view(),
            offset_after: self.offset_after.deep_view(),
            if_cond: self.if_cond.deep_view(),
            deref_now: self.deref_now,
            postprocess_now: self.postprocess_now,
            restore_position: self.restore_position,
            do_try: self.do_try,
            temp: self.temp,
            little: self.little,
            big: self.big,
            is_big: self.is_big.deep_view(),
            is_little: self.is_little.deep_view(),
            asserts: self.asserts.deep_view(),
            magic: self.magic.deep_view(),
            pad_before: self.pad_before.deep_view(),
            pad_after: self.pad_after.deep_view(),
            align_before: self.align_before.deep_view(),
            align_after: self.align_after.deep_view(),
            seek_before: self.seek_before.deep_view(),
            pad_size_to: self.pad_size_to.deep_view(),
            parse_with: self.parse_with.deep_view(),
        }
    }
}

/// The descriptor of a field with no recognized annotations: every flag
/// `false`, every optional value absent, the argument list empty.
pub open spec fn spec_default_descriptor() -> FieldLevelAttrsV {
    FieldLevelAttrsV {
        args: PassedArgsV::List(Seq::<Seq<char>>::empty()),
        map: None,
        ignore: false,
        default: false,
        calc: None,
        count: None,
        offset: None,
        offset_after: None,
        if_cond: None,
        deref_now: false,
        postprocess_now: false,
        restore_position: false,
        do_try: false,
        temp: false,
        little: SpannedValue { value: false, span: Span { start: 0, end: 0 } },
        big: SpannedValue { value: false, span: Span { start: 0, end: 0 } },
        is_big: None,
        is_little: None,
        asserts: Seq::<AssertV>::empty(),
        magic: None,
        pad_before: None,
        pad_after: None,
        align_before: None,
        align_after: None,
        seek_before: None,
        pad_size_to: None,
        parse_with: None,
    }
}

impl Default for FieldLevelAttrs {
    /// The fully unset descriptor.
    fn default() -> (r: Self)
        ensures
            r@ == spec_default_descriptor(),
    {
        let r = FieldLevelAttrs {
            args: PassedArgs::default(),
            map: None,
            ignore: false,
            default: false,
            calc: None,
            count: None,
            offset: None,
            offset_after: None,
            if_cond: None,
            deref_now: false,
            postprocess_now: false,
            restore_position: false,
            do_try: false,
            temp: false,
            little: SpannedValue { value: false, span: Span { start: 0, end: 0 } },
            big: SpannedValue { value: false, span: Span { start: 0, end: 0 } },
            is_big: None,
            is_little: None,
            asserts: Vec::new(),
            magic: None,
            pad_before: None,
            pad_after: None,
            align_before: None,
            align_after: None,
            seek_before: None,
            pad_size_to: None,
            parse_with: None,
        };
        proof {
            assert(r.asserts.deep_view() =~= Seq::<AssertV>::empty());
            assert(r@ =~= spec_default_descriptor());
        }
        r
    }
}

} // verus!
