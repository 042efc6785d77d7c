use partial_default::body_impl::{
    additional_generics_tt, default_body_tt, field_default_expr, impl_my_derive,
    is_default_variant,
};
use partial_default::declaration::{
    Annotation, DeclarationShape, Field, FieldShape, Generics, Malformed, NestedEntry,
    NestedValue, Payload, StringLiteral, TypeDeclaration, Variant,
};
use partial_default::derive_partial_default;
use partial_default::diagnostic::{Diagnostic, ErrorKind};
use partial_default::generated::{Body, Constraints, FieldValue};
use partial_default::span::Span;
use partial_default::tokens::{accept_lexed, parse_literal, SUFFIX_HEAD, SUFFIX_TAIL};

fn at(position: usize) -> Span {
    Span { start: position, end: position + 1 }
}

fn marker(position: usize) -> Annotation {
    Annotation {
        name: "partial_default".to_owned(),
        span: at(position),
        meta_span: at(position),
        payload: Payload::Absent,
    }
}

fn key_value(key: &str, text: &str, position: usize) -> Annotation {
    let entry = NestedEntry {
        key: key.to_owned(),
        span: at(position + 1),
        value: NestedValue::Literal(StringLiteral {
            value: text.to_owned(),
            suffix: String::new(),
            span: at(position + 2),
        }),
    };
    Annotation {
        name: "partial_default".to_owned(),
        span: at(position),
        meta_span: at(position),
        payload: Payload::KeyValueList { entries: vec![entry], tail: None },
    }
}

fn field(position: usize, annotations: Vec<Annotation>) -> Field {
    Field { name: None, span: at(position), annotations }
}

fn variant(name: &str, position: usize, annotations: Vec<Annotation>) -> Variant {
    Variant {
        name: name.to_owned(),
        name_span: at(position),
        span: at(position + 1),
        annotations,
        shape: FieldShape::Unit,
    }
}

fn declare(annotations: Vec<Annotation>, shape: DeclarationShape) -> TypeDeclaration {
    TypeDeclaration {
        name: "Foo".to_owned(),
        name_span: at(1000),
        span: at(2000),
        annotations,
        generics: Generics {
            impl_generics: "< T , U >".to_owned(),
            type_generics: "< T , U >".to_owned(),
            type_params: vec!["T".to_owned(), "U".to_owned()],
            where_predicates: vec![],
        },
        shape,
    }
}

fn diagnostic(kind: ErrorKind, message: &str, position: usize) -> Diagnostic {
    Diagnostic { kind, message: message.to_owned(), span: at(position) }
}

#[test]
fn a_union_is_an_unsupported_shape() {
    let declaration = declare(vec![], DeclarationShape::Unsupported);
    let expected = diagnostic(
        ErrorKind::UnsupportedShape,
        "PartialDefault cannot be derived for unions",
        2000,
    );
    assert_eq!(impl_my_derive(&declaration), Err(expected.clone()));
    assert_eq!(derive_partial_default(&declaration), Err(expected));
}

#[test]
fn a_union_without_a_marked_variant_has_no_default() {
    let declaration = declare(
        vec![],
        DeclarationShape::TaggedUnion(vec![variant("Bar", 10, vec![]), variant("Baz", 20, vec![])]),
    );
    let expected = diagnostic(ErrorKind::NoDefaultVariantSelected, "No default variant", 2000);
    assert_eq!(impl_my_derive(&declaration), Err(expected.clone()));

    // The first declared variant is not picked, nor is the only one.
    let declaration =
        declare(vec![], DeclarationShape::TaggedUnion(vec![variant("Bar", 10, vec![])]));
    assert_eq!(impl_my_derive(&declaration), Err(expected.clone()));

    let declaration = declare(vec![], DeclarationShape::TaggedUnion(vec![]));
    assert_eq!(impl_my_derive(&declaration), Err(expected));
}

#[test]
fn a_second_marked_variant_is_a_duplicate() {
    let declaration = declare(
        vec![],
        DeclarationShape::TaggedUnion(vec![
            variant("Bar", 10, vec![]),
            variant("Baz", 20, vec![marker(25)]),
            variant("Qux", 30, vec![marker(35)]),
            variant("Quux", 40, vec![marker(45)]),
        ]),
    );
    assert_eq!(
        impl_my_derive(&declaration),
        Err(diagnostic(
            ErrorKind::DuplicateAnnotation,
            "Only one variant can be marked #[partial_default]",
            31
        ))
    );
}

#[test]
fn a_variant_with_a_value_is_in_the_wrong_position() {
    let expected = diagnostic(
        ErrorKind::AnnotationWrongPosition,
        "marker annotations on variants must carry no value",
        20,
    );
    let with_value = variant("Baz", 20, vec![key_value("value", "10", 25)]);
    assert_eq!(is_default_variant(&with_value), Err(expected.clone()));
    let with_bound = variant("Baz", 20, vec![key_value("bound", "T: Ord", 25)]);
    assert_eq!(is_default_variant(&with_bound), Err(expected.clone()));

    // It is reported even where another variant carries the marker.
    let declaration = declare(
        vec![],
        DeclarationShape::TaggedUnion(vec![variant("Bar", 10, vec![marker(15)]), with_value]),
    );
    assert_eq!(impl_my_derive(&declaration), Err(expected));
}

#[test]
fn variants_answer_for_their_marker() {
    assert_eq!(is_default_variant(&variant("Bar", 10, vec![])), Ok(false));
    assert_eq!(is_default_variant(&variant("Bar", 10, vec![marker(15)])), Ok(true));
    let twice = variant("Bar", 10, vec![marker(15), marker(17)]);
    assert_eq!(
        is_default_variant(&twice),
        Err(diagnostic(
            ErrorKind::DuplicateAnnotation,
            "cannot have multiple annotations of this kind on the same item",
            17
        ))
    );
}

#[test]
fn a_type_takes_a_bound_only() {
    let expected = diagnostic(
        ErrorKind::AnnotationWrongPosition,
        "Expected #[partial_default(bound = \"...\")",
        1000,
    );
    let shape = DeclarationShape::Struct(FieldShape::Unit);
    let declaration = declare(vec![marker(5)], shape.clone());
    assert_eq!(additional_generics_tt(&declaration), Err(expected.clone()));
    assert_eq!(impl_my_derive(&declaration), Err(expected.clone()));
    let declaration = declare(vec![key_value("value", "10", 5)], shape);
    assert_eq!(additional_generics_tt(&declaration), Err(expected.clone()));
    assert_eq!(impl_my_derive(&declaration), Err(expected));
}

#[test]
fn a_field_takes_a_value_only() {
    let expected = diagnostic(
        ErrorKind::AnnotationWrongPosition,
        "Expected #[partial_default(value = \"...\")",
        50,
    );
    assert_eq!(field_default_expr(&field(50, vec![marker(55)])), Err(expected.clone()));
    assert_eq!(
        field_default_expr(&field(50, vec![key_value("bound", "T: Ord", 55)])),
        Err(expected)
    );
}

#[test]
fn fields_get_their_values() {
    assert_eq!(field_default_expr(&field(50, vec![])), Ok(FieldValue::Recursive));
    assert_eq!(
        field_default_expr(&field(50, vec![key_value("value", "a+b", 55)])),
        Ok(FieldValue::Verbatim("a + b".to_owned()))
    );
    assert_eq!(
        field_default_expr(&field(50, vec![key_value("value", "", 55)])),
        Ok(FieldValue::Verbatim(String::new()))
    );
}

#[test]
fn a_text_that_is_no_tokens_is_invalid_syntax_at_the_literal() {
    let expected = diagnostic(
        ErrorKind::InvalidAnnotationSyntax,
        "cannot parse string into token stream",
        57,
    );
    assert_eq!(
        field_default_expr(&field(50, vec![key_value("value", "(10", 55)])),
        Err(expected.clone())
    );
    assert_eq!(
        field_default_expr(&field(50, vec![key_value("value", "\"open", 55)])),
        Err(expected)
    );

    let declaration = declare(
        vec![key_value("bound", "T: Into<[u8; 4>", 5)],
        DeclarationShape::Struct(FieldShape::Unit),
    );
    assert_eq!(
        impl_my_derive(&declaration),
        Err(diagnostic(
            ErrorKind::InvalidAnnotationSyntax,
            "cannot parse string into token stream",
            7
        ))
    );
}

#[test]
fn the_lexer_prints_tokens_apart() {
    let literal =
        |text: &str| StringLiteral { value: text.to_owned(), suffix: String::new(), span: at(1) };
    assert_eq!(parse_literal(&literal("vec![1, 2, 3]")), Ok("vec ! [1 , 2 , 3]".to_owned()));
    assert_eq!(parse_literal(&literal("a::b ( c )")), Ok("a :: b (c)".to_owned()));
    assert_eq!(parse_literal(&literal("  10  // ten")), Ok("10".to_owned()));
    assert_eq!(parse_literal(&literal("Foo{x:1}")), Ok("Foo { x : 1 }".to_owned()));
    assert_eq!(parse_literal(&literal("")), Ok(String::new()));
    assert_eq!(parse_literal(&literal("   ")), Ok(String::new()));
    assert_eq!(
        parse_literal(&literal("]")),
        Err(diagnostic(
            ErrorKind::InvalidAnnotationSyntax,
            "cannot parse string into token stream",
            1
        ))
    );
}

#[test]
fn what_the_lexer_gave_decides() {
    let literal =
        StringLiteral { value: "anything".to_owned(), suffix: String::new(), span: at(8) };
    assert_eq!(accept_lexed(&literal, Ok("some tokens".to_owned())), Ok("some tokens".to_owned()));
    assert_eq!(
        accept_lexed(&literal, Err("no tokens".to_owned())),
        Err(diagnostic(ErrorKind::InvalidAnnotationSyntax, "no tokens", 8))
    );
}

#[test]
fn a_literal_with_a_suffix_is_invalid_syntax() {
    assert_eq!(SUFFIX_HEAD, "unexpected suffix `");
    assert_eq!(SUFFIX_TAIL, "` on string literal");
    let suffixed = |text: &str| StringLiteral {
        value: text.to_owned(),
        suffix: "u8".to_owned(),
        span: at(8),
    };
    let expected = Err(diagnostic(
        ErrorKind::InvalidAnnotationSyntax,
        "unexpected suffix `u8` on string literal",
        8,
    ));
    assert_eq!(accept_lexed(&suffixed("10"), Ok("10".to_owned())), expected);
    assert_eq!(parse_literal(&suffixed("10")), expected);
    assert_eq!(parse_literal(&suffixed("")), expected);

    // What the lexer refuses is reported first.
    assert_eq!(
        parse_literal(&suffixed("(")),
        Err(diagnostic(
            ErrorKind::InvalidAnnotationSyntax,
            "cannot parse string into token stream",
            8
        ))
    );

    // On a variant the suffix is never looked at: the form is in the wrong position.
    let mut with_value = key_value("value", "10", 25);
    if let Payload::KeyValueList { entries, .. } = &mut with_value.payload {
        entries[0].value = NestedValue::Literal(suffixed("10"));
    }
    assert_eq!(
        is_default_variant(&variant("Baz", 20, vec![with_value.clone()])).unwrap_err().kind,
        ErrorKind::AnnotationWrongPosition
    );
    // On a field it is.
    assert_eq!(
        field_default_expr(&field(50, vec![with_value])),
        Err(diagnostic(
            ErrorKind::InvalidAnnotationSyntax,
            "unexpected suffix `u8` on string literal",
            8
        ))
    );
}

#[test]
fn an_empty_list_is_refused_in_every_position() {
    let empty = Annotation {
        name: "partial_default".to_owned(),
        span: at(5),
        meta_span: at(6),
        payload: Payload::KeyValueList { entries: vec![], tail: None },
    };
    let expected = diagnostic(ErrorKind::InvalidAnnotationSyntax, "invalid syntax", 6);
    assert_eq!(field_default_expr(&field(50, vec![empty.clone()])), Err(expected.clone()));
    assert_eq!(is_default_variant(&variant("Bar", 10, vec![empty.clone()])), Err(expected.clone()));
    let declaration = declare(vec![empty], DeclarationShape::Struct(FieldShape::Unit));
    assert_eq!(additional_generics_tt(&declaration), Err(expected.clone()));
    assert_eq!(impl_my_derive(&declaration), Err(expected));
}

#[test]
fn the_first_failing_field_decides() {
    let fields = vec![
        field(10, vec![key_value("value", "1", 11)]),
        field(20, vec![marker(21)]),
        field(30, vec![key_value("value", ")", 31)]),
    ];
    let expected = diagnostic(
        ErrorKind::AnnotationWrongPosition,
        "Expected #[partial_default(value = \"...\")",
        20,
    );
    assert_eq!(default_body_tt(&FieldShape::Tuple(fields.clone())), Err(expected.clone()));
    assert_eq!(default_body_tt(&FieldShape::Record(fields)), Err(expected));
    assert_eq!(default_body_tt(&FieldShape::Unit), Ok(Body::Unit));
    assert_eq!(default_body_tt(&FieldShape::Tuple(vec![])), Ok(Body::Tuple(vec![])));
    assert_eq!(default_body_tt(&FieldShape::Record(vec![])), Ok(Body::Record(vec![])));
}

#[test]
fn the_constraints_fail_before_the_construction() {
    let declaration = declare(
        vec![marker(5)],
        DeclarationShape::TaggedUnion(vec![variant("Bar", 10, vec![])]),
    );
    assert_eq!(impl_my_derive(&declaration).unwrap_err().kind, ErrorKind::AnnotationWrongPosition);

    let declaration = declare(vec![marker(5)], DeclarationShape::Unsupported);
    assert_eq!(impl_my_derive(&declaration).unwrap_err().kind, ErrorKind::AnnotationWrongPosition);

    let declaration = declare(
        vec![],
        DeclarationShape::Struct(FieldShape::Tuple(vec![field(50, vec![marker(55)])])),
    );
    assert_eq!(additional_generics_tt(&declaration).unwrap(), Constraints::Inferred(vec![
        "T".to_owned(),
        "U".to_owned()
    ]));
    assert_eq!(impl_my_derive(&declaration).unwrap_err().span, at(50));
}

#[test]
fn a_malformed_annotation_on_a_variant_ends_the_search() {
    let broken = Annotation {
        name: "partial_default".to_owned(),
        span: at(15),
        meta_span: at(16),
        payload: Payload::KeyValueList {
            entries: vec![],
            tail: Some(Malformed {
                message: "unexpected literal in nested attribute, expected ident".to_owned(),
                span: at(17),
            }),
        },
    };
    let declaration = declare(
        vec![],
        DeclarationShape::TaggedUnion(vec![
            variant("Bar", 10, vec![broken]),
            variant("Baz", 20, vec![marker(25)]),
        ]),
    );
    assert_eq!(
        impl_my_derive(&declaration),
        Err(diagnostic(
            ErrorKind::InvalidAnnotationSyntax,
            "unexpected literal in nested attribute, expected ident",
            17
        ))
    );
}
