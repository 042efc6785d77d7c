//! What the generator produces: the parts of an implementation.

use crate::declaration::{optional_text, views};
use vstd::prelude::*;

verus! {

/// The value that the generated code gives to one field.
#[derive(Clone, PartialEq, Eq, Debug)]
pub enum FieldValue {
    /// The partial default of the field's own type.
    Recursive,
    /// The tokens of the expression that the declaration gives for the field.
    Verbatim(String),
}

/// The mathematical value of a [`FieldValue`].
pub enum FieldValueView {
    Recursive,
    Verbatim(Seq<char>),
}

impl View for FieldValue {
    type V = FieldValueView;

    open spec fn view(&self) -> FieldValueView {
        match self {
            FieldValue::Recursive => FieldValueView::Recursive,
            FieldValue::Verbatim(tokens) => FieldValueView::Verbatim(tokens@),
        }
    }
}

/// One `label: value` entry of a record under construction.
#[derive(Clone, PartialEq, Eq, Debug)]
pub struct FieldInit {
    pub label: Option<String>,
    pub value: FieldValue,
}

/// The mathematical value of a [`FieldInit`].
pub struct FieldInitView {
    pub label: Option<Seq<char>>,
    pub value: FieldValueView,
}

impl View for FieldInit {
    type V = FieldInitView;

    open spec fn view(&self) -> FieldInitView {
        FieldInitView { label: optional_text(self.label), value: self.value@ }
    }
}

/// The part of a construction that follows the name.
#[derive(Clone, PartialEq, Eq, Debug)]
pub enum Body {
    /// Nothing: the name alone is the value.
    Unit,
    /// Values in parentheses, in the order of the fields.
    Tuple(Vec<FieldValue>),
    /// Labelled values in braces, in the order of the fields.
    Record(Vec<FieldInit>),
}

/// The mathematical value of a [`Body`].
pub enum BodyView {
    Unit,
    Tuple(Seq<FieldValueView>),
    Record(Seq<FieldInitView>),
}

impl BodyView {
    /// The values that the body gives to the fields, in order.
    pub open spec fn values(self) -> Seq<FieldValueView> {
        match self {
            BodyView::Unit => Seq::empty(),
            BodyView::Tuple(values) => values,
            BodyView::Record(inits) => Seq::new(inits.len(), |i: int| inits[i].value),
        }
    }
}

impl View for Body {
    type V = BodyView;

    open spec fn view(&self) -> BodyView {
        match self {
            Body::Unit => BodyView::Unit,
            Body::Tuple(values) => BodyView::Tuple(views(values@)),
            Body::Record(inits) => BodyView::Record(views(inits@)),
        }
    }
}

/// The expression that builds the partial default.
#[derive(Clone, PartialEq, Eq, Debug)]
pub struct Construction {
    pub owner: String,
    /// The variant that is built, for a tagged union.
    pub variant: Option<String>,
    pub body: Body,
}

/// The mathematical value of a [`Construction`].
pub struct ConstructionView {
    pub owner: Seq<char>,
    pub variant: Option<Seq<char>>,
    pub body: BodyView,
}

impl View for Construction {
    type V = ConstructionView;

    open spec fn view(&self) -> ConstructionView {
        ConstructionView {
            owner: self.owner@,
            variant: optional_text(self.variant),
            body: self.body@,
        }
    }
}

/// The constraints that the implementation adds to the declaration's own.
#[derive(Clone, PartialEq, Eq, Debug)]
pub enum Constraints {
    /// One capability constraint for each of the named type parameters.
    Inferred(Vec<String>),
    /// The tokens that the declaration gives in their place.
    Explicit(String),
}

/// The mathematical value of a [`Constraints`].
pub enum ConstraintsView {
    Inferred(Seq<Seq<char>>),
    Explicit(Seq<char>),
}

impl View for Constraints {
    type V = ConstraintsView;

    open spec fn view(&self) -> ConstraintsView {
        match self {
            Constraints::Inferred(params) => ConstraintsView::Inferred(views(params@)),
            Constraints::Explicit(tokens) => ConstraintsView::Explicit(tokens@),
        }
    }
}

/// A generated implementation of `PartialDefault`, in parts.
#[derive(Clone, PartialEq, Eq, Debug)]
pub struct GeneratedImplementation {
    pub name: String,
    pub impl_generics: String,
    pub type_generics: String,
    pub where_predicates: Vec<String>,
    pub constraints: Constraints,
    pub construction: Construction,
}

/// The mathematical value of a [`GeneratedImplementation`].
pub struct GeneratedImplementationView {
    pub name: Seq<char>,
    pub impl_generics: Seq<char>,
    pub type_generics: Seq<char>,
    pub where_predicates: Seq<Seq<char>>,
    pub constraints: ConstraintsView,
    pub construction: ConstructionView,
}

impl View for GeneratedImplementation {
    type V = GeneratedImplementationView;

    open spec fn view(&self) -> GeneratedImplementationView {
        GeneratedImplementationView {
            name: self.name@,
            impl_generics: self.impl_generics@,
            type_generics: self.type_generics@,
            where_predicates: views(self.where_predicates@),
            constraints: self.constraints@,
            construction: self.construction@,
        }
    }
}

} // verus!
