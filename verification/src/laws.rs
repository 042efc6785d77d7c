//! What holds of every generated implementation.

use crate::body_impl::{
    body_of, carries_marker, construction_of, constraints_of, default_variant, field_value,
    field_inits, field_values, generated, markers, no_default_variant, override_value,
    unsupported_shape, variant_spans, ONLY_ONE_VARIANT,
};
use crate::declaration::{
    DeclarationShapeView, FieldShapeView, FieldView, StringLiteralView, TypeDeclaration,
    TypeDeclarationView, VariantView,
};
use crate::default_attr::{
    annotated_at, annotation_spans, is_marker, is_override, is_recognized, lemma_accepted_forms,
    lemma_annotated_at, lemma_unannotated, recognized, unannotated, BOUND_KEY,
    MULTIPLE_ANNOTATIONS, VALUE_KEY,
};
use crate::derived_text;
use crate::diagnostic::{accepted, refused, Diagnostic, DiagnosticView};
use crate::generated::{
    BodyView, ConstraintsView, ConstructionView, FieldInitView, FieldValueView,
    GeneratedImplementationView,
};
use crate::render::constraints_text;
use crate::tokens::{literal_tokens, text_view};
use crate::util::{
    answered, duplicate, lemma_unique_match_found, lemma_unique_match_ok,
    lemma_unique_match_second, lemma_unique_match_two, matches_only, unique_match,
};
use vstd::prelude::*;

verus! {

/// The record of the given type in which every field gets the partial
/// default of its own type.
pub open spec fn recursive_record(owner: Seq<char>, fields: Seq<FieldView>) -> ConstructionView {
    ConstructionView {
        owner,
        variant: None,
        body: BodyView::Record(
            Seq::new(
                fields.len(),
                |i: int| FieldInitView { label: fields[i].name, value: FieldValueView::Recursive },
            ),
        ),
    }
}

/// The construction of the given variant of the given type, as far as its
/// fields have values.
pub open spec fn variant_construction(owner: Seq<char>, variant: VariantView) -> Result<
    ConstructionView,
    DiagnosticView,
> {
    match body_of(variant.shape) {
        Ok(body) => Ok(ConstructionView { owner, variant: Some(variant.name), body }),
        Err(error) => Err(error),
    }
}

/// The variant carries the marker, as its annotation at `at`, and nothing
/// else under the recognized name.
pub open spec fn is_marked(variant: VariantView, at: int) -> bool {
    annotated_at(variant.annotations, at) && is_marker(variant.annotations[at])
}

/// A field without the annotation gets the partial default of its own type.
pub proof fn law_unannotated_field(field: FieldView)
    requires
        unannotated(field.annotations),
    ensures
        field_value(field) == accepted(FieldValueView::Recursive),
{
    lemma_unannotated(field.annotations);
}

/// A record struct that carries the annotation nowhere, not on the type and
/// not on a field, is built from the partial default of each of its fields,
/// under the constraint of each of its type parameters.
pub proof fn law_plain_record(input: TypeDeclarationView, fields: Seq<FieldView>)
    requires
        input.shape == DeclarationShapeView::Struct(FieldShapeView::Record(fields)),
        unannotated(input.annotations),
        forall|i: int| 0 <= i < fields.len() ==> unannotated((#[trigger] fields[i]).annotations),
    ensures
        generated(input) is Ok,
        generated(input)->Ok_0.construction == recursive_record(input.name, fields),
        generated(input)->Ok_0.constraints == ConstraintsView::Inferred(
            input.generics.type_params,
        ),
{
    lemma_unannotated(input.annotations);
    assert forall|i: int| 0 <= i < fields.len() implies (#[trigger] field_value(fields[i]))
        == accepted(FieldValueView::Recursive) by {
        law_unannotated_field(fields[i]);
    }
    assert(field_inits(fields)->Ok_0 =~= recursive_record(input.name, fields).body->Record_0);
}

/// A field annotated `value = "<expr>"` gets the tokens of `<expr>`, in
/// place of the partial default of its type.
pub proof fn law_value_override_of_field(field: FieldView, at: int, literal: StringLiteralView)
    requires
        annotated_at(field.annotations, at),
        is_override(field.annotations[at], VALUE_KEY@, literal),
    ensures
        field_value(field) == override_value(literal),
        literal_tokens(literal) is Ok ==> field_value(field) == accepted(
            FieldValueView::Verbatim(literal_tokens(literal)->Ok_0),
        ),
{
    lemma_annotated_at(field.annotations, at);
    lemma_accepted_forms(field.annotations[at], literal);
}

/// Among the fields of a struct or of a variant that can be built, the one
/// annotated `value = "<expr>"` gets the tokens of `<expr>`, and every field
/// without the annotation still gets the partial default of its type.
pub proof fn law_value_override(
    shape: FieldShapeView,
    fields: Seq<FieldView>,
    which: int,
    at: int,
    literal: StringLiteralView,
)
    requires
        shape == FieldShapeView::Record(fields) || shape == FieldShapeView::Tuple(fields),
        0 <= which < fields.len(),
        annotated_at(fields[which].annotations, at),
        is_override(fields[which].annotations[at], VALUE_KEY@, literal),
        body_of(shape) is Ok,
    ensures
        body_of(shape)->Ok_0.values().len() == fields.len(),
        literal_tokens(literal) is Ok,
        body_of(shape)->Ok_0.values()[which] == FieldValueView::Verbatim(
            literal_tokens(literal)->Ok_0,
        ),
        forall|other: int|
            0 <= other < fields.len() && unannotated((#[trigger] fields[other]).annotations)
                ==> body_of(shape)->Ok_0.values()[other] == FieldValueView::Recursive,
{
    law_value_override_of_field(fields[which], at, literal);
    assert(field_values(fields) is Ok);
    assert(field_value(fields[which]) is Ok);
    assert forall|other: int|
        0 <= other < fields.len() && unannotated(
            (#[trigger] fields[other]).annotations,
        ) implies body_of(shape)->Ok_0.values()[other] == FieldValueView::Recursive by {
        law_unannotated_field(fields[other]);
    }
}

/// A variant that carries the marker answers that it does.
pub proof fn law_marked_variant_answers(variant: VariantView, at: int)
    requires
        is_marked(variant, at),
    ensures
        carries_marker(variant) == answered(true),
{
    lemma_annotated_at(variant.annotations, at);
}

/// A variant without the annotation answers that it carries no marker.
pub proof fn law_unmarked_variant_answers(variant: VariantView)
    requires
        unannotated(variant.annotations),
    ensures
        carries_marker(variant) == answered(false),
{
    lemma_unannotated(variant.annotations);
}

/// A variant answers that it carries the marker only where it does: where
/// one of its annotations, and no other, has the recognized name, and that
/// one is the name alone.
pub proof fn law_answer_means_marked(variant: VariantView) -> (at: int)
    requires
        carries_marker(variant) == answered(true),
    ensures
        is_marked(variant, at),
{
    let answers = recognized(variant.annotations);
    let spans = annotation_spans(variant.annotations);
    lemma_unique_match_ok(answers, spans, MULTIPLE_ANNOTATIONS@);
    let at = unique_match(answers, spans, MULTIPLE_ANNOTATIONS@)->Ok_0->Some_0;
    assert forall|i: int| 0 <= i < variant.annotations.len() implies (is_recognized(
        #[trigger] variant.annotations[i],
    ) <==> i == at) by {
        assert(answers[i] == answered(Some(at) == Some(i)));
    }
    at
}

/// Of a tagged union in which one variant carries the marker and every other
/// variant carries none, that variant is the one that is built, wherever it
/// stands among the others.
pub proof fn law_marked_variant_is_built(
    input: TypeDeclarationView,
    variants: Seq<VariantView>,
    marked: int,
)
    requires
        input.shape == DeclarationShapeView::TaggedUnion(variants),
        0 <= marked < variants.len(),
        forall|i: int|
            0 <= i < variants.len() ==> carries_marker(#[trigger] variants[i]) == answered(
                i == marked,
            ),
    ensures
        default_variant(variants, input.span) == accepted(marked),
        construction_of(input) == variant_construction(input.name, variants[marked]),
        generated(input) is Ok ==> generated(input)->Ok_0.construction.variant == Some(
            variants[marked].name,
        ),
{
    let answers = markers(variants);
    assert forall|i: int| 0 <= i < answers.len() implies #[trigger] answers[i] == answered(
        Some(marked) == Some(i),
    ) by {
        assert(carries_marker(variants[i]) == answered(i == marked));
    }
    assert(matches_only(answers, Some(marked)));
    lemma_unique_match_found(answers, variant_spans(variants), ONLY_ONE_VARIANT@, Some(marked));
}

/// A tagged union in which no variant carries the marker is refused.
pub proof fn law_no_marked_variant(input: TypeDeclarationView, variants: Seq<VariantView>)
    requires
        input.shape == DeclarationShapeView::TaggedUnion(variants),
        forall|i: int|
            0 <= i < variants.len() ==> carries_marker(#[trigger] variants[i]) != answered(true),
    ensures
        construction_of(input) is Err,
        generated(input) is Err,
{
    let answers = markers(variants);
    let spans = variant_spans(variants);
    if unique_match(answers, spans, ONLY_ONE_VARIANT@) is Ok {
        lemma_unique_match_ok(answers, spans, ONLY_ONE_VARIANT@);
        let found = unique_match(answers, spans, ONLY_ONE_VARIANT@)->Ok_0;
        if found is Some {
            let k = found->Some_0;
            assert(answers[k] == answered(found == Some(k)));
            assert(carries_marker(variants[k]) != answered(true));
        }
    }
}

/// Where every variant answers that it carries no marker, the union is
/// refused for want of a default variant, at the declaration; and, where the
/// constraints of the type are in order, so is the declaration.
pub proof fn law_no_default_variant(input: TypeDeclarationView, variants: Seq<VariantView>)
    requires
        input.shape == DeclarationShapeView::TaggedUnion(variants),
        forall|i: int|
            0 <= i < variants.len() ==> carries_marker(#[trigger] variants[i]) == answered(false),
    ensures
        construction_of(input) == refused::<ConstructionView>(no_default_variant(input.span)),
        constraints_of(input) is Ok ==> generated(input) == refused::<GeneratedImplementationView>(
            no_default_variant(input.span),
        ),
{
    let answers = markers(variants);
    assert forall|i: int| 0 <= i < answers.len() implies #[trigger] answers[i] == answered(
        None::<int> == Some(i),
    ) by {
        assert(carries_marker(variants[i]) == answered(false));
    }
    assert(matches_only(answers, None));
    lemma_unique_match_found(answers, variant_spans(variants), ONLY_ONE_VARIANT@, None);
}

/// A tagged union in which two variants carry the marker is refused, whatever
/// else it holds.
pub proof fn law_two_marked_variants(
    input: TypeDeclarationView,
    variants: Seq<VariantView>,
    first: int,
    second: int,
)
    requires
        input.shape == DeclarationShapeView::TaggedUnion(variants),
        0 <= first < second < variants.len(),
        carries_marker(variants[first]) == answered(true),
        carries_marker(variants[second]) == answered(true),
    ensures
        construction_of(input) is Err,
        generated(input) is Err,
{
    lemma_unique_match_two(
        markers(variants),
        variant_spans(variants),
        ONLY_ONE_VARIANT@,
        first,
        second,
    );
}

/// Where the variants before the second marked one, but for the first, answer
/// that they carry no marker, the union is refused as a duplicate, at that
/// second variant; and, where the constraints of the type are in order, so is
/// the declaration.
pub proof fn law_second_marked_variant(
    input: TypeDeclarationView,
    variants: Seq<VariantView>,
    first: int,
    second: int,
)
    requires
        input.shape == DeclarationShapeView::TaggedUnion(variants),
        0 <= first < second < variants.len(),
        carries_marker(variants[second]) == answered(true),
        forall|i: int|
            0 <= i < second ==> carries_marker(#[trigger] variants[i]) == answered(i == first),
    ensures
        construction_of(input) == refused::<ConstructionView>(
            duplicate(ONLY_ONE_VARIANT@, variants[second].span),
        ),
        constraints_of(input) is Ok ==> generated(input) == refused::<GeneratedImplementationView>(
            duplicate(ONLY_ONE_VARIANT@, variants[second].span),
        ),
{
    let answers = markers(variants);
    assert forall|i: int| 0 <= i < second implies #[trigger] answers[i] == answered(
        i == first,
    ) by {
        assert(carries_marker(variants[i]) == answered(i == first));
    }
    lemma_unique_match_second(
        answers,
        variant_spans(variants),
        ONLY_ONE_VARIANT@,
        first,
        second,
    );
}

/// A union of raw memory is always refused; where the constraints of the
/// type are in order, as an unsupported shape, at the declaration.
pub proof fn law_union_is_refused(input: TypeDeclarationView)
    requires
        input.shape is Unsupported,
    ensures
        generated(input) is Err,
        construction_of(input) == refused::<ConstructionView>(unsupported_shape(input.span)),
        constraints_of(input) is Ok ==> generated(input) == refused::<GeneratedImplementationView>(
            unsupported_shape(input.span),
        ),
{
}

/// A type annotated `bound = ""` gets no constraint added: not one token
/// stands where the inferred constraints would.
pub proof fn law_empty_bound(input: TypeDeclarationView, at: int, literal: StringLiteralView)
    requires
        annotated_at(input.annotations, at),
        is_override(input.annotations[at], BOUND_KEY@, literal),
        literal.value.len() == 0,
        literal.suffix.len() == 0,
    ensures
        constraints_of(input) == accepted(ConstraintsView::Explicit(Seq::empty())),
        constraints_text(constraints_of(input)->Ok_0).len() == 0,
        generated(input) is Ok ==> generated(input)->Ok_0.constraints == ConstraintsView::Explicit(
            Seq::empty(),
        ),
{
    lemma_annotated_at(input.annotations, at);
    lemma_accepted_forms(input.annotations[at], literal);
}

/// Two runs on declarations that say the same end alike: with the same text,
/// character for character, or with the same diagnostic.
pub proof fn law_same_declaration_same_text(
    first: TypeDeclaration,
    second: TypeDeclaration,
    first_outcome: Result<String, Diagnostic>,
    second_outcome: Result<String, Diagnostic>,
)
    requires
        first@ == second@,
        text_view(first_outcome) == derived_text(first@),
        text_view(second_outcome) == derived_text(second@),
    ensures
        text_view(first_outcome) == text_view(second_outcome),
        first_outcome is Ok <==> second_outcome is Ok,
        first_outcome is Ok ==> first_outcome->Ok_0@ == second_outcome->Ok_0@,
        first_outcome is Err ==> first_outcome->Err_0@ == second_outcome->Err_0@,
{
}

} // verus!
