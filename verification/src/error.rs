//! Diagnostics: every failure carries a human-readable message and a span
//! into the original source text.

use vstd::prelude::*;
use crate::span::Span;

verus! {

/// A diagnostic message anchored at a source span.
#[derive(PartialEq, Debug)]
pub struct SpanError {
    pub span: Span,
    pub message: String,
}

/// The mathematical model of a `SpanError`.
pub struct SpanErrorV {
    pub span: Span,
    pub message: Seq<char>,
}

impl View for SpanError {
    type V = SpanErrorV;

    open spec fn view(&self) -> SpanErrorV {
        SpanErrorV { span: self.span, message: self.message@ }
    }
}

impl Clone for SpanError {
    fn clone(&self) -> (r: Self)
        ensures
            r@ == self@,
    {
        SpanError { span: self.span, message: self.message.clone() }
    }
}

impl SpanError {
    pub fn new(span: Span, message: &str) -> (r: Self)
        ensures
            r@ == (SpanErrorV { span, message: message@ }),
    {
        SpanError { span, message: message.to_owned() }
    }
}

/// The failure taxonomy of one field's resolution: either one annotation
/// block did not conform to the embedded grammar, or two or more annotation
/// occurrences conflict structurally.
#[derive(PartialEq, Debug)]
pub enum CompileError {
    ParseError(SpanError),
    SpanError(SpanError),
}

/// The mathematical model of a `CompileError`.
pub enum CompileErrorV {
    ParseError(SpanErrorV),
    SpanError(SpanErrorV),
}

impl View for CompileError {
    type V = CompileErrorV;

    open spec fn view(&self) -> CompileErrorV {
        match self {
            CompileError::ParseError(e) => CompileErrorV::ParseError(e@),
            CompileError::SpanError(e) => CompileErrorV::SpanError(e@),
        }
    }
}

} // verus!
