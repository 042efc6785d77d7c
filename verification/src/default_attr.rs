//! The `#[partial_default]` annotation and its three forms.

use crate::declaration::{
    views, Annotation, AnnotationView, Malformed, MalformedView, NestedEntry, NestedEntryView,
    NestedValue, NestedValueView, Payload, PayloadView, StringLiteral, StringLiteralView,
};
use crate::diagnostic::{accepted, refused, Diagnostic, DiagnosticView, ErrorKind};
use crate::span::Span;
use crate::util::{
    answered, answers_of, duplicate, find_only, lemma_unique_match_found, lemma_unique_match_ok,
    lemma_unique_match_second, lemma_unique_match_two, matches_only, unique_match,
};
use vstd::prelude::*;

verus! {

/// The name by which the annotation is recognized.
pub const ANNOTATION_NAME: &'static str = "partial_default";

/// The key of the form that replaces the inferred constraints of a type.
pub const BOUND_KEY: &'static str = "bound";

/// The key of the form that gives the value of a field.
pub const VALUE_KEY: &'static str = "value";

/// Said of a second annotation on one item.
pub const MULTIPLE_ANNOTATIONS: &'static str =
    "cannot have multiple annotations of this kind on the same item";

/// Said of an annotation that is written in none of the accepted forms.
pub const INVALID_SYNTAX: &'static str = "invalid syntax";

/// The annotation, in the form in which it was found on an item.
#[derive(Clone, PartialEq, Eq, Debug)]
pub enum DefaultAttr {
    /// The bare marker: `#[partial_default]`.
    Empty,
    /// `#[partial_default(bound = "...")]`, with the text of the constraints.
    Bound(StringLiteral),
    /// `#[partial_default(value = "...")]`, with the text of the expression.
    Value(StringLiteral),
}

/// The mathematical value of a [`DefaultAttr`].
pub enum DefaultAttrView {
    Empty,
    Bound(StringLiteralView),
    Value(StringLiteralView),
}

impl View for DefaultAttr {
    type V = DefaultAttrView;

    open spec fn view(&self) -> DefaultAttrView {
        match self {
            DefaultAttr::Empty => DefaultAttrView::Empty,
            DefaultAttr::Bound(literal) => DefaultAttrView::Bound(literal@),
            DefaultAttr::Value(literal) => DefaultAttrView::Value(literal@),
        }
    }
}

/// What a search for the annotation gives, as a mathematical value.
pub open spec fn search_view(found: Result<Option<DefaultAttr>, Diagnostic>) -> Result<
    Option<DefaultAttrView>,
    DiagnosticView,
> {
    match found {
        Ok(Some(form)) => Ok(Some(form@)),
        Ok(None) => Ok(None),
        Err(error) => Err(error@),
    }
}

/// The annotation carries the recognized name.
pub open spec fn is_recognized(annotation: AnnotationView) -> bool {
    annotation.name == ANNOTATION_NAME@
}

/// For each annotation, whether it is recognized.
pub open spec fn recognized(annotations: Seq<AnnotationView>) -> Seq<
    Result<bool, DiagnosticView>,
> {
    Seq::new(annotations.len(), |i: int| Ok(is_recognized(annotations[i])))
}

/// For each annotation, where it stands.
pub open spec fn annotation_spans(annotations: Seq<AnnotationView>) -> Seq<Span> {
    Seq::new(annotations.len(), |i: int| annotations[i].span)
}

/// The diagnostic for an annotation in none of the accepted forms.
pub open spec fn invalid_syntax(span: Span) -> DiagnosticView {
    DiagnosticView { kind: ErrorKind::InvalidAnnotationSyntax, message: INVALID_SYNTAX@, span }
}

/// The diagnostic for what the reader of a key/value list could not read.
pub open spec fn unreadable(malformed: MalformedView) -> DiagnosticView {
    DiagnosticView {
        kind: ErrorKind::InvalidAnnotationSyntax,
        message: malformed.message,
        span: malformed.span,
    }
}

/// The form that a key/value list stands for.
///
/// The list must hold exactly one entry, whose key is `bound` or `value` and
/// whose value is a string literal. What breaks this first, reading from the
/// left, is what the diagnostic names; a list without anything in it is
/// invalid syntax at `span`, where the annotation's name and payload stand.
pub open spec fn key_value_form(
    entries: Seq<NestedEntryView>,
    tail: Option<MalformedView>,
    span: Span,
) -> Result<DefaultAttrView, DiagnosticView> {
    if entries.len() == 0 {
        match tail {
            Some(malformed) => Err(unreadable(malformed)),
            None => Err(invalid_syntax(span)),
        }
    } else if entries[0].key != BOUND_KEY@ && entries[0].key != VALUE_KEY@ {
        Err(invalid_syntax(entries[0].span))
    } else {
        match entries[0].value {
            NestedValueView::Malformed(malformed) => Err(unreadable(malformed)),
            NestedValueView::Literal(literal) => if entries.len() > 1 {
                Err(invalid_syntax(entries[1].span))
            } else {
                match tail {
                    Some(malformed) => Err(unreadable(malformed)),
                    None => Ok(
                        if entries[0].key == BOUND_KEY@ {
                            DefaultAttrView::Bound(literal)
                        } else {
                            DefaultAttrView::Value(literal)
                        },
                    ),
                }
            },
        }
    }
}

/// The form that a recognized annotation stands for: one of the three, or
/// the diagnostic for an annotation that is written in none of them.
pub open spec fn annotation_form(annotation: AnnotationView) -> Result<
    DefaultAttrView,
    DiagnosticView,
> {
    match annotation.payload {
        PayloadView::Absent => Ok(DefaultAttrView::Empty),
        PayloadView::KeyValueList { entries, tail } => key_value_form(
            entries,
            tail,
            annotation.meta_span,
        ),
        PayloadView::Assignment => Err(invalid_syntax(annotation.meta_span)),
    }
}

/// The outcome of a search that found an annotation with the given form.
pub open spec fn found(form: Result<DefaultAttrView, DiagnosticView>) -> Result<
    Option<DefaultAttrView>,
    DiagnosticView,
> {
    match form {
        Ok(form) => Ok(Some(form)),
        Err(error) => Err(error),
    }
}

/// The form of the one recognized annotation among `annotations`.
///
/// The outcome is `None` only where no annotation carries the recognized
/// name. One that does gives its form or is refused, and a second one is a
/// `DuplicateAnnotation` at that second.
pub open spec fn found_in_attributes(annotations: Seq<AnnotationView>) -> Result<
    Option<DefaultAttrView>,
    DiagnosticView,
> {
    match unique_match(
        recognized(annotations),
        annotation_spans(annotations),
        MULTIPLE_ANNOTATIONS@,
    ) {
        Err(error) => Err(error),
        Ok(None) => Ok(None),
        Ok(Some(k)) => found(annotation_form(annotations[k])),
    }
}

/// None of the annotations carries the recognized name.
pub open spec fn unannotated(annotations: Seq<AnnotationView>) -> bool {
    forall|i: int| 0 <= i < annotations.len() ==> !is_recognized(#[trigger] annotations[i])
}

/// The annotation at `k`, and no other, carries the recognized name.
pub open spec fn annotated_at(annotations: Seq<AnnotationView>, k: int) -> bool {
    &&& 0 <= k < annotations.len()
    &&& forall|i: int|
        0 <= i < annotations.len() ==> (is_recognized(#[trigger] annotations[i]) <==> i == k)
}

/// The annotation is the name alone.
pub open spec fn is_marker(annotation: AnnotationView) -> bool {
    annotation.payload is Absent
}

/// The annotation is a list of the one entry `key = "literal"`.
pub open spec fn is_override(
    annotation: AnnotationView,
    key: Seq<char>,
    literal: StringLiteralView,
) -> bool {
    &&& annotation.payload matches PayloadView::KeyValueList { entries, tail }
    &&& tail is None
    &&& entries.len() == 1
    &&& entries[0].key == key
    &&& entries[0].value == NestedValueView::Literal(literal)
}

/// An item without the annotation has no form.
pub proof fn lemma_unannotated(annotations: Seq<AnnotationView>)
    requires
        unannotated(annotations),
    ensures
        found_in_attributes(annotations) matches Ok(None),
{
    assert(matches_only(recognized(annotations), None));
    lemma_unique_match_found(
        recognized(annotations),
        annotation_spans(annotations),
        MULTIPLE_ANNOTATIONS@,
        None,
    );
}

/// An item with the annotation once has the form of that annotation,
/// wherever it stands among the others.
pub proof fn lemma_annotated_at(annotations: Seq<AnnotationView>, k: int)
    requires
        annotated_at(annotations, k),
    ensures
        found_in_attributes(annotations) == found(annotation_form(annotations[k])),
{
    assert(matches_only(recognized(annotations), Some(k)));
    lemma_unique_match_found(
        recognized(annotations),
        annotation_spans(annotations),
        MULTIPLE_ANNOTATIONS@,
        Some(k),
    );
}

/// A search gives `None` only for an item without the annotation.
pub proof fn lemma_none_means_unannotated(annotations: Seq<AnnotationView>)
    requires
        found_in_attributes(annotations) matches Ok(None),
    ensures
        unannotated(annotations),
{
    let answers = recognized(annotations);
    let spans = annotation_spans(annotations);
    lemma_unique_match_ok(answers, spans, MULTIPLE_ANNOTATIONS@);
    assert forall|i: int| 0 <= i < annotations.len() implies !is_recognized(
        #[trigger] annotations[i],
    ) by {
        assert(answers[i] == answered(None::<int> == Some(i)));
    }
}

/// The annotations at `first` and at `second` carry the recognized name, and
/// no other up to `second` does.
pub open spec fn annotated_again(
    annotations: Seq<AnnotationView>,
    first: int,
    second: int,
) -> bool {
    &&& 0 <= first < second < annotations.len()
    &&& forall|i: int|
        0 <= i <= second ==> (is_recognized(#[trigger] annotations[i]) <==> i == first || i
            == second)
}

/// An item with the annotation twice is refused.
pub proof fn lemma_annotated_twice(annotations: Seq<AnnotationView>, first: int, second: int)
    requires
        0 <= first < second < annotations.len(),
        is_recognized(annotations[first]),
        is_recognized(annotations[second]),
    ensures
        found_in_attributes(annotations) is Err,
{
    lemma_unique_match_two(
        recognized(annotations),
        annotation_spans(annotations),
        MULTIPLE_ANNOTATIONS@,
        first,
        second,
    );
}

/// The diagnostic for an item with the annotation twice stands at the second
/// of them.
pub proof fn lemma_annotated_again(annotations: Seq<AnnotationView>, first: int, second: int)
    requires
        annotated_again(annotations, first, second),
    ensures
        found_in_attributes(annotations) == refused::<Option<DefaultAttrView>>(
            duplicate(MULTIPLE_ANNOTATIONS@, annotations[second].span),
        ),
{
    lemma_unique_match_second(
        recognized(annotations),
        annotation_spans(annotations),
        MULTIPLE_ANNOTATIONS@,
        first,
        second,
    );
}

/// The two keys are not the same word.
pub proof fn lemma_keys_differ()
    ensures
        BOUND_KEY@ != VALUE_KEY@,
{
    reveal_strlit("bound");
    reveal_strlit("value");
    assert(BOUND_KEY@[0] == 'b');
    assert(VALUE_KEY@[0] == 'v');
}

/// What each accepted way of writing the annotation stands for.
pub proof fn lemma_accepted_forms(annotation: AnnotationView, literal: StringLiteralView)
    ensures
        is_marker(annotation) ==> annotation_form(annotation) == accepted(DefaultAttrView::Empty),
        is_override(annotation, BOUND_KEY@, literal) ==> annotation_form(annotation) == accepted(
            DefaultAttrView::Bound(literal),
        ),
        is_override(annotation, VALUE_KEY@, literal) ==> annotation_form(annotation) == accepted(
            DefaultAttrView::Value(literal),
        ),
{
    lemma_keys_differ();
}

/// A recognized annotation with a list that holds nothing is refused as
/// invalid syntax, where its name and payload stand.
pub proof fn lemma_empty_list_is_refused(annotation: AnnotationView)
    requires
        annotation.payload == (PayloadView::KeyValueList { entries: Seq::empty(), tail: None }),
    ensures
        annotation_form(annotation) == refused::<DefaultAttrView>(
            invalid_syntax(annotation.meta_span),
        ),
{
}

/// Whether `text` reads exactly as `expected`.
fn text_is(text: &String, expected: &str) -> (same: bool)
    ensures
        same == (text@ == expected@),
{
    let wanted = expected.to_owned();
    *text == wanted
}

/// Builds the diagnostic for an annotation in none of the accepted forms.
fn invalid_syntax_at(span: Span) -> (error: Diagnostic)
    ensures
        error@ == invalid_syntax(span),
{
    Diagnostic::new(ErrorKind::InvalidAnnotationSyntax, INVALID_SYNTAX, span)
}

/// Builds the diagnostic for what the reader could not read.
fn unreadable_at(malformed: &Malformed) -> (error: Diagnostic)
    ensures
        error@ == unreadable(malformed@),
{
    Diagnostic {
        kind: ErrorKind::InvalidAnnotationSyntax,
        message: malformed.message.clone(),
        span: malformed.span,
    }
}

/// Copies a string literal.
fn copy_literal(literal: &StringLiteral) -> (copy: StringLiteral)
    ensures
        copy@ == literal@,
{
    StringLiteral {
        value: literal.value.clone(),
        suffix: literal.suffix.clone(),
        span: literal.span,
    }
}

/// Reads the form out of a key/value list; `span` is where the annotation's
/// name and payload stand.
fn read_key_values(entries: &Vec<NestedEntry>, tail: &Option<Malformed>, span: Span) -> (form:
    Result<DefaultAttr, Diagnostic>)
    ensures
        form_view(form) == key_value_form(views(entries@), optional_malformed(*tail), span),
{
    let mut result: Option<DefaultAttr> = None;
    let mut index: usize = 0;
    while index < entries.len()
        invariant
            index <= entries.len(),
            result is None <==> index == 0,
            index <= 1,
            result matches Some(form) ==> {
                &&& entries@[0].value matches NestedValue::Literal(literal)
                &&& entries@[0].key@ == BOUND_KEY@ ==> form@ == DefaultAttrView::Bound(literal@)
                &&& entries@[0].key@ != BOUND_KEY@ ==> entries@[0].key@ == VALUE_KEY@ && form@
                    == DefaultAttrView::Value(literal@)
            },
        decreases entries.len() - index,
    {
        let entry = &entries[index];
        if result.is_some() {
            return Err(invalid_syntax_at(entry.span));
        }
        let is_bound = text_is(&entry.key, BOUND_KEY);
        if !is_bound && !text_is(&entry.key, VALUE_KEY) {
            return Err(invalid_syntax_at(entry.span));
        }
        match &entry.value {
            NestedValue::Malformed(malformed) => {
                return Err(unreadable_at(malformed));
            },
            NestedValue::Literal(literal) => {
                if is_bound {
                    result = Some(DefaultAttr::Bound(copy_literal(literal)));
                } else {
                    result = Some(DefaultAttr::Value(copy_literal(literal)));
                }
            },
        }
        index = index + 1;
    }
    match tail {
        Some(malformed) => Err(unreadable_at(malformed)),
        None => match result {
            Some(form) => Ok(form),
            None => Err(invalid_syntax_at(span)),
        },
    }
}

/// A form or a diagnostic, as a mathematical value.
pub open spec fn form_view(form: Result<DefaultAttr, Diagnostic>) -> Result<
    DefaultAttrView,
    DiagnosticView,
> {
    match form {
        Ok(form) => Ok(form@),
        Err(error) => Err(error@),
    }
}

/// The mathematical value of what may follow the entries of a list.
pub open spec fn optional_malformed(tail: Option<Malformed>) -> Option<MalformedView> {
    match tail {
        Some(malformed) => Some(malformed@),
        None => None,
    }
}

impl DefaultAttr {
    /// Looks for the annotation among those of one item and reads its form.
    ///
    /// Annotations under other names are passed over. `Ok(None)` says that
    /// the item carries none under the recognized name, and nothing else
    /// does: one that is found gives one of the three forms or is refused.
    pub fn find_in_attributes(attrs: &[Annotation]) -> (found: Result<Option<Self>, Diagnostic>)
        ensures
            search_view(found) == found_in_attributes(views(attrs@)),
    {
        let recognize = |attr: &Annotation| -> (answer: Result<bool, Diagnostic>)
            ensures
                answer == Ok::<bool, Diagnostic>(is_recognized(attr@)),
            { Ok(text_is(&attr.name, ANNOTATION_NAME)) };
        let only = find_only(attrs, MULTIPLE_ANNOTATIONS, recognize);
        proof {
            let annotations = views(attrs@);
            assert(answers_of(
                recognize,
                attrs@,
                recognized(annotations),
                annotation_spans(annotations),
            ));
        }
        match only {
            Err(error) => Err(error),
            Ok(None) => Ok(None),
            Ok(Some(default_attr)) => match &default_attr.payload {
                Payload::Absent => Ok(Some(DefaultAttr::Empty)),
                Payload::KeyValueList { entries, tail } => match read_key_values(
                    entries,
                    tail,
                    default_attr.meta_span,
                ) {
                    Ok(form) => Ok(Some(form)),
                    Err(error) => Err(error),
                },
                Payload::Assignment => Err(invalid_syntax_at(default_attr.meta_span)),
            },
        }
    }
}

} // verus!
