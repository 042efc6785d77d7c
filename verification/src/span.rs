//! Source locations.

use vstd::prelude::*;

verus! {

/// A place in the source that a declaration was read from.
///
/// The two numbers mean what they mean to whoever filled in the declaration.
/// The generator never interprets a span: it only attaches the span of the
/// offending item to the diagnostic that it reports.
#[derive(Clone, Copy, PartialEq, Eq, Debug)]
pub struct Span {
    pub start: usize,
    pub end: usize,
}

/// An item of a declaration that knows where in the source it stands.
pub trait Spanned {
    /// The location of the item.
    spec fn span_of(&self) -> Span;

    /// Returns the location of the item.
    fn span(&self) -> (s: Span)
        ensures
            s == self.span_of(),
    ;
}

} // verus!
