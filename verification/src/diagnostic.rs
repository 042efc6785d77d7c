//! What the generator reports when it cannot generate.

use crate::span::Span;
use vstd::prelude::*;

verus! {

/// The ways in which a declaration can be refused.
#[derive(Clone, Copy, PartialEq, Eq, Debug)]
pub enum ErrorKind {
    /// More than one item matched where at most one may.
    DuplicateAnnotation,
    /// An annotation is not written in one of the accepted forms.
    InvalidAnnotationSyntax,
    /// An annotation has a form that its position does not accept.
    AnnotationWrongPosition,
    /// No variant of a tagged union carries the marker.
    NoDefaultVariantSelected,
    /// The declaration has a shape for which nothing can be generated.
    UnsupportedShape,
}

/// A refusal: what went wrong, in words, and where.
#[derive(Clone, PartialEq, Eq, Debug)]
pub struct Diagnostic {
    pub kind: ErrorKind,
    pub message: String,
    pub span: Span,
}

/// The mathematical value of a [`Diagnostic`].
pub struct DiagnosticView {
    pub kind: ErrorKind,
    pub message: Seq<char>,
    pub span: Span,
}

impl View for Diagnostic {
    type V = DiagnosticView;

    open spec fn view(&self) -> DiagnosticView {
        DiagnosticView { kind: self.kind, message: self.message@, span: self.span }
    }
}

/// The outcome that is the value `value`.
pub open spec fn accepted<T>(value: T) -> Result<T, DiagnosticView> {
    Ok(value)
}

/// The outcome that is the diagnostic `error`.
pub open spec fn refused<T>(error: DiagnosticView) -> Result<T, DiagnosticView> {
    Err(error)
}

impl Diagnostic {
    /// Builds a diagnostic of the given kind at the given place.
    pub fn new(kind: ErrorKind, message: &str, span: Span) -> (d: Diagnostic)
        ensures
            d@ == (DiagnosticView { kind, message: message@, span }),
    {
        Diagnostic { kind, message: message.to_owned(), span }
    }
}

} // verus!
