//! The declaration of a data type, as the generator reads it.
//!
//! A declaration is plain data: names and texts are strings, locations are
//! [`Span`]s. Whoever parses the source fills it in; the generator only reads
//! it.

use crate::span::{Span, Spanned};
use vstd::prelude::*;

verus! {

/// The mathematical values of the items of a sequence, in order.
pub open spec fn views<T: View>(items: Seq<T>) -> Seq<T::V> {
    Seq::new(items.len(), |i: int| items[i]@)
}

/// The mathematical value of an optional text.
pub open spec fn optional_text(text: Option<String>) -> Option<Seq<char>> {
    match text {
        Some(t) => Some(t@),
        None => None,
    }
}

/// Something that the reader of an annotation could not make sense of.
#[derive(Clone, PartialEq, Eq, Debug)]
pub struct Malformed {
    /// What the reader expected, in its own words.
    pub message: String,
    /// Where it stopped.
    pub span: Span,
}

/// The mathematical value of a [`Malformed`].
pub struct MalformedView {
    pub message: Seq<char>,
    pub span: Span,
}

impl View for Malformed {
    type V = MalformedView;

    open spec fn view(&self) -> MalformedView {
        MalformedView { message: self.message@, span: self.span }
    }
}

/// A string literal: the text that it stands for, the suffix written
/// directly behind its closing quote, and where it is written.
#[derive(Clone, PartialEq, Eq, Debug)]
pub struct StringLiteral {
    pub value: String,
    /// Empty for a literal that ends with its quote, as nearly all do.
    pub suffix: String,
    pub span: Span,
}

/// The mathematical value of a [`StringLiteral`].
pub struct StringLiteralView {
    pub value: Seq<char>,
    pub suffix: Seq<char>,
    pub span: Span,
}

impl View for StringLiteral {
    type V = StringLiteralView;

    open spec fn view(&self) -> StringLiteralView {
        StringLiteralView { value: self.value@, suffix: self.suffix@, span: self.span }
    }
}

/// What follows the key of an entry of a key/value list.
#[derive(Clone, PartialEq, Eq, Debug)]
pub enum NestedValue {
    /// `= "text"`.
    Literal(StringLiteral),
    /// Anything else, with what the reader said of it.
    Malformed(Malformed),
}

/// The mathematical value of a [`NestedValue`].
pub enum NestedValueView {
    Literal(StringLiteralView),
    Malformed(MalformedView),
}

impl View for NestedValue {
    type V = NestedValueView;

    open spec fn view(&self) -> NestedValueView {
        match self {
            NestedValue::Literal(literal) => NestedValueView::Literal(literal@),
            NestedValue::Malformed(malformed) => NestedValueView::Malformed(malformed@),
        }
    }
}

/// One entry of a parenthesized key/value list.
#[derive(Clone, PartialEq, Eq, Debug)]
pub struct NestedEntry {
    /// The key as written, a path.
    pub key: String,
    /// Where the key is written.
    pub span: Span,
    pub value: NestedValue,
}

/// The mathematical value of a [`NestedEntry`].
pub struct NestedEntryView {
    pub key: Seq<char>,
    pub span: Span,
    pub value: NestedValueView,
}

impl View for NestedEntry {
    type V = NestedEntryView;

    open spec fn view(&self) -> NestedEntryView {
        NestedEntryView { key: self.key@, span: self.span, value: self.value@ }
    }
}

/// What an annotation carries after its name.
#[derive(Clone, PartialEq, Eq, Debug)]
pub enum Payload {
    /// Nothing: `#[name]`.
    Absent,
    /// A parenthesized list: `#[name(key = "text", ...)]`.
    ///
    /// `entries` holds the entries that the reader got through, in order, the
    /// last of them possibly with a malformed value. `tail` is set where the
    /// list goes on after them with something that is no entry.
    KeyValueList { entries: Vec<NestedEntry>, tail: Option<Malformed> },
    /// A direct assignment: `#[name = ...]`.
    Assignment,
}

/// The mathematical value of a [`Payload`].
pub enum PayloadView {
    Absent,
    KeyValueList { entries: Seq<NestedEntryView>, tail: Option<MalformedView> },
    Assignment,
}

impl View for Payload {
    type V = PayloadView;

    open spec fn view(&self) -> PayloadView {
        match self {
            Payload::Absent => PayloadView::Absent,
            Payload::KeyValueList { entries, tail } => PayloadView::KeyValueList {
                entries: views(entries@),
                tail: match tail {
                    Some(malformed) => Some(malformed@),
                    None => None,
                },
            },
            Payload::Assignment => PayloadView::Assignment,
        }
    }
}

/// An annotation attached to a type, a variant or a field.
#[derive(Clone, PartialEq, Eq, Debug)]
pub struct Annotation {
    /// The name as written, a path.
    pub name: String,
    /// Where the whole annotation is written.
    pub span: Span,
    /// Where its name and payload are written.
    pub meta_span: Span,
    pub payload: Payload,
}

/// The mathematical value of a [`Annotation`].
pub struct AnnotationView {
    pub name: Seq<char>,
    pub span: Span,
    pub meta_span: Span,
    pub payload: PayloadView,
}

impl View for Annotation {
    type V = AnnotationView;

    open spec fn view(&self) -> AnnotationView {
        AnnotationView {
            name: self.name@,
            span: self.span,
            meta_span: self.meta_span,
            payload: self.payload@,
        }
    }
}

impl Spanned for Annotation {
    open spec fn span_of(&self) -> Span {
        self.span
    }

    fn span(&self) -> (s: Span) {
        self.span
    }
}

/// A field of a record or of a tuple.
#[derive(Clone, PartialEq, Eq, Debug)]
pub struct Field {
    /// The name of the field; a positional field has none.
    pub name: Option<String>,
    /// Where the field is declared.
    pub span: Span,
    pub annotations: Vec<Annotation>,
}

/// The mathematical value of a [`Field`].
pub struct FieldView {
    pub name: Option<Seq<char>>,
    pub span: Span,
    pub annotations: Seq<AnnotationView>,
}

impl View for Field {
    type V = FieldView;

    open spec fn view(&self) -> FieldView {
        FieldView {
            name: optional_text(self.name),
            span: self.span,
            annotations: views(self.annotations@),
        }
    }
}

/// The fields of a struct or of a variant.
#[derive(Clone, PartialEq, Eq, Debug)]
pub enum FieldShape {
    /// Named fields in braces.
    Record(Vec<Field>),
    /// Positional fields in parentheses.
    Tuple(Vec<Field>),
    /// No fields at all.
    Unit,
}

/// The mathematical value of a [`FieldShape`].
pub enum FieldShapeView {
    Record(Seq<FieldView>),
    Tuple(Seq<FieldView>),
    Unit,
}

impl View for FieldShape {
    type V = FieldShapeView;

    open spec fn view(&self) -> FieldShapeView {
        match self {
            FieldShape::Record(fields) => FieldShapeView::Record(views(fields@)),
            FieldShape::Tuple(fields) => FieldShapeView::Tuple(views(fields@)),
            FieldShape::Unit => FieldShapeView::Unit,
        }
    }
}

/// A variant of a tagged union.
#[derive(Clone, PartialEq, Eq, Debug)]
pub struct Variant {
    pub name: String,
    /// Where the name is written.
    pub name_span: Span,
    /// Where the whole variant is declared.
    pub span: Span,
    pub annotations: Vec<Annotation>,
    pub shape: FieldShape,
}

/// The mathematical value of a [`Variant`].
pub struct VariantView {
    pub name: Seq<char>,
    pub name_span: Span,
    pub span: Span,
    pub annotations: Seq<AnnotationView>,
    pub shape: FieldShapeView,
}

impl View for Variant {
    type V = VariantView;

    open spec fn view(&self) -> VariantView {
        VariantView {
            name: self.name@,
            name_span: self.name_span,
            span: self.span,
            annotations: views(self.annotations@),
            shape: self.shape@,
        }
    }
}

impl Spanned for Variant {
    open spec fn span_of(&self) -> Span {
        self.span
    }

    fn span(&self) -> (s: Span) {
        self.span
    }
}

/// The shape of a declared type.
#[derive(Clone, PartialEq, Eq, Debug)]
pub enum DeclarationShape {
    /// A struct: a record, a tuple or a unit.
    Struct(FieldShape),
    /// A tagged union of variants.
    TaggedUnion(Vec<Variant>),
    /// A union of raw memory, for which nothing can be generated.
    Unsupported,
}

/// The mathematical value of a [`DeclarationShape`].
pub enum DeclarationShapeView {
    Struct(FieldShapeView),
    TaggedUnion(Seq<VariantView>),
    Unsupported,
}

impl View for DeclarationShape {
    type V = DeclarationShapeView;

    open spec fn view(&self) -> DeclarationShapeView {
        match self {
            DeclarationShape::Struct(shape) => DeclarationShapeView::Struct(shape@),
            DeclarationShape::TaggedUnion(variants) => DeclarationShapeView::TaggedUnion(
                views(variants@),
            ),
            DeclarationShape::Unsupported => DeclarationShapeView::Unsupported,
        }
    }
}

/// The generic parameters of a declared type, as far as they are echoed.
///
/// The two lists in angle brackets and the predicates are token text and go
/// into the generated implementation unchanged; an empty text stands for
/// nothing.
#[derive(Clone, PartialEq, Eq, Debug)]
pub struct Generics {
    /// The parameter list as it follows `impl`, angle brackets included.
    pub impl_generics: String,
    /// The argument list as it follows the type's name, angle brackets
    /// included.
    pub type_generics: String,
    /// The names of the type parameters, in order of declaration.
    pub type_params: Vec<String>,
    /// The predicates of the declaration's own `where` clause.
    pub where_predicates: Vec<String>,
}

/// The mathematical value of a [`Generics`].
pub struct GenericsView {
    pub impl_generics: Seq<char>,
    pub type_generics: Seq<char>,
    pub type_params: Seq<Seq<char>>,
    pub where_predicates: Seq<Seq<char>>,
}

impl View for Generics {
    type V = GenericsView;

    open spec fn view(&self) -> GenericsView {
        GenericsView {
            impl_generics: self.impl_generics@,
            type_generics: self.type_generics@,
            type_params: views(self.type_params@),
            where_predicates: views(self.where_predicates@),
        }
    }
}

/// The declaration of a data type.
#[derive(Clone, PartialEq, Eq, Debug)]
pub struct TypeDeclaration {
    pub name: String,
    /// Where the name is written.
    pub name_span: Span,
    /// Where the whole declaration is written.
    pub span: Span,
    pub annotations: Vec<Annotation>,
    pub generics: Generics,
    pub shape: DeclarationShape,
}

/// The mathematical value of a [`TypeDeclaration`].
pub struct TypeDeclarationView {
    pub name: Seq<char>,
    pub name_span: Span,
    pub span: Span,
    pub annotations: Seq<AnnotationView>,
    pub generics: GenericsView,
    pub shape: DeclarationShapeView,
}

impl View for TypeDeclaration {
    type V = TypeDeclarationView;

    open spec fn view(&self) -> TypeDeclarationView {
        TypeDeclarationView {
            name: self.name@,
            name_span: self.name_span,
            span: self.span,
            annotations: views(self.annotations@),
            generics: self.generics@,
            shape: self.shape@,
        }
    }
}

} // verus!
