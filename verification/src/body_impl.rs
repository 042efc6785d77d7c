//! From a declaration to the parts of its implementation.

use crate::declaration::{
    optional_text, views, DeclarationShape, DeclarationShapeView, Field, FieldShape,
    FieldShapeView, FieldView, StringLiteralView, TypeDeclaration, TypeDeclarationView, Variant,
    VariantView,
};
use crate::default_attr::{found_in_attributes, DefaultAttr, DefaultAttrView};
use crate::diagnostic::{Diagnostic, DiagnosticView, ErrorKind};
use crate::generated::{
    Body, BodyView, Constraints, ConstraintsView, Construction, ConstructionView, FieldInit,
    FieldInitView, FieldValue, FieldValueView, GeneratedImplementation,
    GeneratedImplementationView,
};
use crate::span::Span;
use crate::tokens::{literal_tokens, parse_literal};
use crate::util::{answer_view, answers_of, find_only, unique_match};
use vstd::prelude::*;

verus! {

/// Said of a second variant that carries the marker.
pub const ONLY_ONE_VARIANT: &'static str = "Only one variant can be marked #[partial_default]";

/// Said of a variant whose annotation is more than the marker.
pub const VARIANT_WITH_VALUE: &'static str = "marker annotations on variants must carry no value";

/// Said of a tagged union without a marked variant.
pub const NO_DEFAULT_VARIANT: &'static str = "No default variant";

/// Said of a type whose annotation is not a `bound`.
pub const EXPECTED_BOUND: &'static str = "Expected #[partial_default(bound = \"...\")";

/// Said of a field whose annotation is not a `value`.
pub const EXPECTED_VALUE: &'static str = "Expected #[partial_default(value = \"...\")";

/// Said of a union of raw memory.
pub const UNSUPPORTED_UNION: &'static str = "PartialDefault cannot be derived for unions";

/// The diagnostic for an annotation in a position that does not take its form.
pub open spec fn wrong_position(message: Seq<char>, span: Span) -> DiagnosticView {
    DiagnosticView { kind: ErrorKind::AnnotationWrongPosition, message, span }
}

/// The value that a `value` override with the given text stands for: the
/// tokens of the text.
pub open spec fn override_value(literal: StringLiteralView) -> Result<
    FieldValueView,
    DiagnosticView,
> {
    match literal_tokens(literal) {
        Ok(tokens) => Ok(FieldValueView::Verbatim(tokens)),
        Err(error) => Err(error),
    }
}

/// The value that the generated code gives to `field`.
///
/// A field without the annotation gets the partial default of its own type.
/// A `value` override gives the tokens of its text. Any other form is in the
/// wrong position on a field.
pub open spec fn field_value(field: FieldView) -> Result<FieldValueView, DiagnosticView> {
    match found_in_attributes(field.annotations) {
        Err(error) => Err(error),
        Ok(None) => Ok(FieldValueView::Recursive),
        Ok(Some(DefaultAttrView::Value(literal))) => override_value(literal),
        Ok(Some(_)) => Err(wrong_position(EXPECTED_VALUE@, field.span)),
    }
}

/// Every field has a value.
pub open spec fn all_valued(fields: Seq<FieldView>) -> bool {
    forall|i: int| 0 <= i < fields.len() ==> (#[trigger] field_value(fields[i])) is Ok
}

/// `k` is the first field without a value.
pub open spec fn is_first_failure(fields: Seq<FieldView>, k: int) -> bool {
    &&& 0 <= k < fields.len()
    &&& field_value(fields[k]) is Err
    &&& forall|j: int| 0 <= j < k ==> (#[trigger] field_value(fields[j])) is Ok
}

/// The values of the fields, in order, or the diagnostic of the first field
/// that has none.
pub open spec fn field_values(fields: Seq<FieldView>) -> Result<
    Seq<FieldValueView>,
    DiagnosticView,
> {
    if all_valued(fields) {
        Ok(Seq::new(fields.len(), |i: int| field_value(fields[i])->Ok_0))
    } else {
        Err(field_value(fields[choose|k: int| is_first_failure(fields, k)])->Err_0)
    }
}

/// The values of the fields, each under the name of its field.
pub open spec fn field_inits(fields: Seq<FieldView>) -> Result<
    Seq<FieldInitView>,
    DiagnosticView,
> {
    match field_values(fields) {
        Ok(values) => Ok(
            Seq::new(
                fields.len(),
                |i: int| FieldInitView { label: fields[i].name, value: values[i] },
            ),
        ),
        Err(error) => Err(error),
    }
}

/// The part of the construction that follows the name, for fields of the
/// given shape.
pub open spec fn body_of(shape: FieldShapeView) -> Result<BodyView, DiagnosticView> {
    match shape {
        FieldShapeView::Record(fields) => match field_inits(fields) {
            Ok(inits) => Ok(BodyView::Record(inits)),
            Err(error) => Err(error),
        },
        FieldShapeView::Tuple(fields) => match field_values(fields) {
            Ok(values) => Ok(BodyView::Tuple(values)),
            Err(error) => Err(error),
        },
        FieldShapeView::Unit => Ok(BodyView::Unit),
    }
}

/// The constraints that the implementation adds.
///
/// Without the annotation on the type, each type parameter is constrained. A
/// `bound` override gives the tokens of its text in their place. Any other
/// form is in the wrong position on a type.
pub open spec fn constraints_of(input: TypeDeclarationView) -> Result<
    ConstraintsView,
    DiagnosticView,
> {
    match found_in_attributes(input.annotations) {
        Err(error) => Err(error),
        Ok(None) => Ok(ConstraintsView::Inferred(input.generics.type_params)),
        Ok(Some(DefaultAttrView::Bound(literal))) => match literal_tokens(literal) {
            Ok(tokens) => Ok(ConstraintsView::Explicit(tokens)),
            Err(error) => Err(error),
        },
        Ok(Some(_)) => Err(wrong_position(EXPECTED_BOUND@, input.name_span)),
    }
}

/// Whether `variant` carries the marker.
///
/// An annotation of another form is in the wrong position on a variant.
pub open spec fn carries_marker(variant: VariantView) -> Result<bool, DiagnosticView> {
    match found_in_attributes(variant.annotations) {
        Err(error) => Err(error),
        Ok(None) => Ok(false),
        Ok(Some(DefaultAttrView::Empty)) => Ok(true),
        Ok(Some(_)) => Err(wrong_position(VARIANT_WITH_VALUE@, variant.name_span)),
    }
}

/// For each variant, whether it carries the marker.
pub open spec fn markers(variants: Seq<VariantView>) -> Seq<Result<bool, DiagnosticView>> {
    Seq::new(variants.len(), |i: int| carries_marker(variants[i]))
}

/// For each variant, where it stands.
pub open spec fn variant_spans(variants: Seq<VariantView>) -> Seq<Span> {
    Seq::new(variants.len(), |i: int| variants[i].span)
}

/// The diagnostic for a tagged union without a marked variant.
pub open spec fn no_default_variant(span: Span) -> DiagnosticView {
    DiagnosticView {
        kind: ErrorKind::NoDefaultVariantSelected,
        message: NO_DEFAULT_VARIANT@,
        span,
    }
}

/// The diagnostic for a union of raw memory.
pub open spec fn unsupported_shape(span: Span) -> DiagnosticView {
    DiagnosticView { kind: ErrorKind::UnsupportedShape, message: UNSUPPORTED_UNION@, span }
}

/// The index of the one variant that carries the marker.
///
/// `span` is where the whole declaration stands: a union without a marked
/// variant is reported there.
pub open spec fn default_variant(variants: Seq<VariantView>, span: Span) -> Result<
    int,
    DiagnosticView,
> {
    match unique_match(markers(variants), variant_spans(variants), ONLY_ONE_VARIANT@) {
        Err(error) => Err(error),
        Ok(None) => Err(no_default_variant(span)),
        Ok(Some(k)) => Ok(k),
    }
}

/// The expression that builds the partial default of the declared type.
pub open spec fn construction_of(input: TypeDeclarationView) -> Result<
    ConstructionView,
    DiagnosticView,
> {
    match input.shape {
        DeclarationShapeView::Struct(shape) => match body_of(shape) {
            Ok(body) => Ok(ConstructionView { owner: input.name, variant: None, body }),
            Err(error) => Err(error),
        },
        DeclarationShapeView::TaggedUnion(variants) => match default_variant(
            variants,
            input.span,
        ) {
            Ok(k) => match body_of(variants[k].shape) {
                Ok(body) => Ok(
                    ConstructionView {
                        owner: input.name,
                        variant: Some(variants[k].name),
                        body,
                    },
                ),
                Err(error) => Err(error),
            },
            Err(error) => Err(error),
        },
        DeclarationShapeView::Unsupported => Err(unsupported_shape(input.span)),
    }
}

/// The implementation that is generated for `input`, or the one diagnostic
/// that is reported in its place: that of the constraints, where they fail,
/// else that of the construction.
pub open spec fn generated(input: TypeDeclarationView) -> Result<
    GeneratedImplementationView,
    DiagnosticView,
> {
    match constraints_of(input) {
        Err(error) => Err(error),
        Ok(constraints) => match construction_of(input) {
            Err(error) => Err(error),
            Ok(construction) => Ok(
                GeneratedImplementationView {
                    name: input.name,
                    impl_generics: input.generics.impl_generics,
                    type_generics: input.generics.type_generics,
                    where_predicates: input.generics.where_predicates,
                    constraints,
                    construction,
                },
            ),
        },
    }
}

/// A value or a diagnostic, as a mathematical value.
pub open spec fn outcome_view<T: View>(outcome: Result<T, Diagnostic>) -> Result<
    T::V,
    DiagnosticView,
> {
    match outcome {
        Ok(value) => Ok(value@),
        Err(error) => Err(error@),
    }
}

/// Values in order or a diagnostic, as a mathematical value.
pub open spec fn outcomes_view<T: View>(outcome: Result<Vec<T>, Diagnostic>) -> Result<
    Seq<T::V>,
    DiagnosticView,
> {
    match outcome {
        Ok(values) => Ok(views(values@)),
        Err(error) => Err(error@),
    }
}

/// The diagnostic of `field_values` is that of the first field without a
/// value.
pub proof fn lemma_first_failure(fields: Seq<FieldView>, k: int)
    requires
        is_first_failure(fields, k),
    ensures
        field_values(fields) matches Err(error) && error == field_value(fields[k])->Err_0,
{
    let chosen = choose|k: int| is_first_failure(fields, k);
    assert(chosen == k) by {
        if chosen < k {
            assert(field_value(fields[chosen]) is Ok);
        }
        if k < chosen {
            assert(field_value(fields[k]) is Ok);
        }
    }
}

/// Copies the texts of `texts`, in order.
fn copy_texts(texts: &Vec<String>) -> (copy: Vec<String>)
    ensures
        views(copy@) == views(texts@),
{
    let mut copy: Vec<String> = Vec::new();
    let mut index: usize = 0;
    while index < texts.len()
        invariant
            index <= texts.len(),
            copy@.len() == index,
            forall|i: int| 0 <= i < index ==> copy@[i]@ == texts@[i]@,
        decreases texts.len() - index,
    {
        copy.push(texts[index].clone());
        index = index + 1;
    }
    assert(views(copy@) =~= views(texts@));
    copy
}

/// Copies an optional text.
fn copy_optional_text(text: &Option<String>) -> (copy: Option<String>)
    ensures
        optional_text(copy) == optional_text(*text),
{
    match text {
        Some(t) => Some(t.clone()),
        None => None,
    }
}

/// Returns the value that the generated code gives to `field`.
pub fn field_default_expr(field: &Field) -> (outcome: Result<FieldValue, Diagnostic>)
    ensures
        outcome_view(outcome) == field_value(field@),
{
    match DefaultAttr::find_in_attributes(field.annotations.as_slice()) {
        Err(error) => Err(error),
        Ok(None) => Ok(FieldValue::Recursive),
        Ok(Some(DefaultAttr::Value(field_value))) => match parse_literal(&field_value) {
            Ok(tokens) => Ok(FieldValue::Verbatim(tokens)),
            Err(error) => Err(error),
        },
        Ok(Some(_)) => Err(
            Diagnostic::new(ErrorKind::AnnotationWrongPosition, EXPECTED_VALUE, field.span),
        ),
    }
}

/// Returns the values of `fields`, in order.
fn field_default_exprs(fields: &Vec<Field>) -> (outcome: Result<Vec<FieldValue>, Diagnostic>)
    ensures
        outcomes_view(outcome) == field_values(views(fields@)),
{
    let mut values: Vec<FieldValue> = Vec::new();
    let mut index: usize = 0;
    while index < fields.len()
        invariant
            index <= fields.len(),
            values@.len() == index,
            forall|i: int|
                0 <= i < index ==> ((#[trigger] field_value(views(fields@)[i])) matches Ok(value)
                    && value == values@[i]@),
        decreases fields.len() - index,
    {
        assert(views(fields@)[index as int] == fields@[index as int]@);
        match field_default_expr(&fields[index]) {
            Ok(value) => {
                values.push(value);
            },
            Err(error) => {
                proof {
                    lemma_first_failure(views(fields@), index as int);
                }
                return Err(error);
            },
        }
        index = index + 1;
    }
    proof {
        let all = views(fields@);
        assert(all_valued(all));
        assert(views(values@) =~= Seq::new(all.len(), |i: int| field_value(all[i])->Ok_0));
    }
    Ok(values)
}

/// Returns the labelled values of `fields`, in order.
fn field_assignments(fields: &Vec<Field>) -> (outcome: Result<Vec<FieldInit>, Diagnostic>)
    ensures
        outcomes_view(outcome) == field_inits(views(fields@)),
{
    let mut inits: Vec<FieldInit> = Vec::new();
    let mut index: usize = 0;
    while index < fields.len()
        invariant
            index <= fields.len(),
            inits@.len() == index,
            forall|i: int|
                0 <= i < index ==> ((#[trigger] field_value(views(fields@)[i])) matches Ok(value)
                    && value == inits@[i]@.value),
            forall|i: int|
                0 <= i < index ==> (#[trigger] inits@[i])@.label == views(fields@)[i].name,
        decreases fields.len() - index,
    {
        assert(views(fields@)[index as int] == fields@[index as int]@);
        let field = &fields[index];
        match field_default_expr(field) {
            Ok(value) => {
                inits.push(FieldInit { label: copy_optional_text(&field.name), value });
            },
            Err(error) => {
                proof {
                    lemma_first_failure(views(fields@), index as int);
                }
                return Err(error);
            },
        }
        index = index + 1;
    }
    proof {
        let all = views(fields@);
        assert(all_valued(all));
        let values = field_values(all)->Ok_0;
        assert(views(inits@) =~= Seq::new(
            all.len(),
            |i: int| FieldInitView { label: all[i].name, value: values[i] },
        ));
    }
    Ok(inits)
}

/// Returns the part of the construction that follows the name: the braces of
/// a record, the parentheses of a tuple, nothing for a unit.
pub fn default_body_tt(body: &FieldShape) -> (outcome: Result<Body, Diagnostic>)
    ensures
        outcome_view(outcome) == body_of(body@),
{
    match body {
        FieldShape::Record(fields) => match field_assignments(fields) {
            Ok(inits) => Ok(Body::Record(inits)),
            Err(error) => Err(error),
        },
        FieldShape::Tuple(fields) => match field_default_exprs(fields) {
            Ok(values) => Ok(Body::Tuple(values)),
            Err(error) => Err(error),
        },
        FieldShape::Unit => Ok(Body::Unit),
    }
}

/// Returns the constraints that the implementation adds to those of the
/// declaration.
pub fn additional_generics_tt(item: &TypeDeclaration) -> (outcome: Result<Constraints, Diagnostic>)
    ensures
        outcome_view(outcome) == constraints_of(item@),
{
    match DefaultAttr::find_in_attributes(item.annotations.as_slice()) {
        Err(error) => Err(error),
        Ok(None) => Ok(Constraints::Inferred(copy_texts(&item.generics.type_params))),
        Ok(Some(DefaultAttr::Bound(bound))) => match parse_literal(&bound) {
            Ok(tokens) => Ok(Constraints::Explicit(tokens)),
            Err(error) => Err(error),
        },
        Ok(Some(_)) => Err(
            Diagnostic::new(ErrorKind::AnnotationWrongPosition, EXPECTED_BOUND, item.name_span),
        ),
    }
}

/// Decides whether `variant` carries the marker.
pub fn is_default_variant(variant: &Variant) -> (answer: Result<bool, Diagnostic>)
    ensures
        answer_view(answer) == carries_marker(variant@),
{
    match DefaultAttr::find_in_attributes(variant.annotations.as_slice()) {
        Err(error) => Err(error),
        Ok(None) => Ok(false),
        Ok(Some(DefaultAttr::Empty)) => Ok(true),
        Ok(Some(_)) => Err(
            Diagnostic::new(
                ErrorKind::AnnotationWrongPosition,
                VARIANT_WITH_VALUE,
                variant.name_span,
            ),
        ),
    }
}

/// Generates the implementation for `input`, in parts.
pub fn impl_my_derive(input: &TypeDeclaration) -> (outcome: Result<
    GeneratedImplementation,
    Diagnostic,
>)
    ensures
        outcome_view(outcome) == generated(input@),
{
    let constraints = match additional_generics_tt(input) {
        Ok(constraints) => constraints,
        Err(error) => {
            return Err(error);
        },
    };
    let construction = match &input.shape {
        DeclarationShape::Struct(body) => match default_body_tt(body) {
            Ok(body_assignment) => Construction {
                owner: input.name.clone(),
                variant: None,
                body: body_assignment,
            },
            Err(error) => {
                return Err(error);
            },
        },
        DeclarationShape::TaggedUnion(variants) => {
            let is_default = |variant: &Variant| -> (answer: Result<bool, Diagnostic>)
                ensures
                    answer_view(answer) == carries_marker(variant@),
                { is_default_variant(variant) };
            let only = find_only(variants.as_slice(), ONLY_ONE_VARIANT, is_default);
            proof {
                let all = views(variants@);
                assert(answers_of(is_default, variants@, markers(all), variant_spans(all)));
            }
            let default_variant = match only {
                Err(error) => {
                    return Err(error);
                },
                Ok(None) => {
                    return Err(
                        Diagnostic::new(
                            ErrorKind::NoDefaultVariantSelected,
                            NO_DEFAULT_VARIANT,
                            input.span,
                        ),
                    );
                },
                Ok(Some(variant)) => variant,
            };
            match default_body_tt(&default_variant.shape) {
                Ok(body_assignment) => Construction {
                    owner: input.name.clone(),
                    variant: Some(default_variant.name.clone()),
                    body: body_assignment,
                },
                Err(error) => {
                    return Err(error);
                },
            }
        },
        DeclarationShape::Unsupported => {
            return Err(
                Diagnostic::new(ErrorKind::UnsupportedShape, UNSUPPORTED_UNION, input.span),
            );
        },
    };
    Ok(
        GeneratedImplementation {
            name: input.name.clone(),
            impl_generics: input.generics.impl_generics.clone(),
            type_generics: input.generics.type_generics.clone(),
            where_predicates: copy_texts(&input.generics.where_predicates),
            constraints,
            construction,
        },
    )
}

} // verus!
