//! Generation of `PartialDefault` implementations from type declarations.
//!
//! A [`declaration::TypeDeclaration`] goes in; the text of an implementation
//! of [`PartialDefault`] for the declared type comes out, or the one
//! [`diagnostic::Diagnostic`] that says why none can be generated.

use crate::body_impl::{generated, impl_my_derive};
use crate::declaration::{TypeDeclaration, TypeDeclarationView};
use crate::diagnostic::{Diagnostic, DiagnosticView};
use crate::render::implementation_text;
use crate::tokens::text_view;
use vstd::prelude::*;

pub mod body_impl;
pub mod declaration;
pub mod default_attr;
pub mod diagnostic;
pub mod generated;
pub mod laws;
pub mod render;
pub mod span;
pub mod tokens;
pub mod util;

verus! {

/// A type that can give a value that is safe to drop or to assign over.
///
/// Nothing else is promised of the value: it need not be a useful default.
pub trait PartialDefault: Sized {
    /// Returns a value that can be safely dropped or assigned over.
    fn partial_default() -> Self;
}

/// Every type with a `Default` gives that default as its partial default.
impl<T: Default> PartialDefault for T {
    fn partial_default() -> (r: Self)
        ensures
            call_ensures(T::default, (), r),
    {
        T::default()
    }
}

/// The text that is derived for `input`: that of the generated
/// implementation, or the diagnostic in its place.
pub open spec fn derived_text(input: TypeDeclarationView) -> Result<Seq<char>, DiagnosticView> {
    match generated(input) {
        Ok(implementation) => Ok(implementation_text(implementation)),
        Err(error) => Err(error),
    }
}

/// Derives `PartialDefault` for the declared type: returns the text of the
/// implementation, or the diagnostic to report in its place.
pub fn derive_partial_default(input: &TypeDeclaration) -> (outcome: Result<String, Diagnostic>)
    ensures
        text_view(outcome) == derived_text(input@),
{
    match impl_my_derive(input) {
        Ok(output) => Ok(output.render()),
        Err(error) => Err(error),
    }
}

} // verus!
