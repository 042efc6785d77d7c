use partial_default::generated::{
    Body, Constraints, Construction, FieldInit, FieldValue, GeneratedImplementation,
};
use partial_default::render::{
    CAPABILITY, COMMA, IMPL_HEAD, METHOD_HEAD, METHOD_TAIL, RECURSIVE_CALL, TRAIT_FOR, WHERE,
};

fn verbatim(tokens: &str) -> FieldValue {
    FieldValue::Verbatim(tokens.to_owned())
}

fn init(label: Option<&str>, value: FieldValue) -> FieldInit {
    FieldInit { label: label.map(|l| l.to_owned()), value }
}

fn construction(variant: Option<&str>, body: Body) -> Construction {
    Construction { owner: "Foo".to_owned(), variant: variant.map(|v| v.to_owned()), body }
}

fn implementation(
    impl_generics: &str,
    type_generics: &str,
    where_predicates: &[&str],
    constraints: Constraints,
) -> GeneratedImplementation {
    GeneratedImplementation {
        name: "Foo".to_owned(),
        impl_generics: impl_generics.to_owned(),
        type_generics: type_generics.to_owned(),
        where_predicates: where_predicates.iter().map(|p| (*p).to_owned()).collect(),
        constraints,
        construction: construction(None, Body::Unit),
    }
}

#[test]
fn the_fixed_words_of_the_text() {
    assert_eq!(IMPL_HEAD, "# [automatically_derived] impl");
    assert_eq!(TRAIT_FOR, " :: partial_default :: PartialDefault for ");
    assert_eq!(WHERE, " where");
    assert_eq!(METHOD_HEAD, " { fn partial_default () -> Self { ");
    assert_eq!(METHOD_TAIL, " } }");
    assert_eq!(CAPABILITY, " : :: partial_default :: PartialDefault");
    assert_eq!(RECURSIVE_CALL, ":: partial_default :: PartialDefault :: partial_default ()");
    assert_eq!(COMMA, " , ");
}

#[test]
fn values_render_as_their_tokens() {
    assert_eq!(
        FieldValue::Recursive.render(),
        ":: partial_default :: PartialDefault :: partial_default ()"
    );
    assert_eq!(verbatim("1 + 2").render(), "1 + 2");
    assert_eq!(verbatim("").render(), "");
    assert_eq!(init(Some("x"), verbatim("10")).render(), "x : 10");
    assert_eq!(init(None, verbatim("10")).render(), ": 10");
    assert_eq!(
        init(Some("x"), FieldValue::Recursive).render(),
        "x : :: partial_default :: PartialDefault :: partial_default ()"
    );
}

#[test]
fn bodies_render_by_their_shape() {
    assert_eq!(Body::Unit.render(), "");
    assert_eq!(Body::Tuple(vec![]).render(), " ()");
    assert_eq!(Body::Tuple(vec![verbatim("1")]).render(), " (1)");
    assert_eq!(
        Body::Tuple(vec![verbatim("1"), verbatim("2"), verbatim("3")]).render(),
        " (1 , 2 , 3)"
    );
    assert_eq!(Body::Record(vec![]).render(), " { }");
    assert_eq!(Body::Record(vec![init(Some("x"), verbatim("1"))]).render(), " { x : 1 }");
    assert_eq!(
        Body::Record(vec![init(Some("x"), verbatim("1")), init(Some("y"), verbatim("2"))])
            .render(),
        " { x : 1 , y : 2 }"
    );
}

#[test]
fn constructions_render_name_variant_and_body() {
    assert_eq!(construction(None, Body::Unit).render(), "Foo");
    assert_eq!(construction(Some("Bar"), Body::Unit).render(), "Foo :: Bar");
    assert_eq!(
        construction(Some("Bar"), Body::Tuple(vec![verbatim("1"), FieldValue::Recursive]))
            .render(),
        "Foo :: Bar (1 , :: partial_default :: PartialDefault :: partial_default ())"
    );
    assert_eq!(
        construction(None, Body::Record(vec![init(Some("x"), verbatim("1"))])).render(),
        "Foo { x : 1 }"
    );
}

#[test]
fn constraints_render_one_bound_for_each_parameter() {
    assert_eq!(Constraints::Inferred(vec![]).render(), "");
    assert_eq!(
        Constraints::Inferred(vec!["T".to_owned()]).render(),
        "T : :: partial_default :: PartialDefault"
    );
    assert_eq!(
        Constraints::Inferred(vec!["T".to_owned(), "U".to_owned()]).render(),
        "T : :: partial_default :: PartialDefault , U : :: partial_default :: PartialDefault"
    );
    assert_eq!(Constraints::Explicit("T : Clone".to_owned()).render(), "T : Clone");
    assert_eq!(Constraints::Explicit(String::new()).render(), "");
}

#[test]
fn implementations_render_in_full() {
    assert_eq!(
        implementation("", "", &[], Constraints::Inferred(vec![])).render(),
        "# [automatically_derived] impl :: partial_default :: PartialDefault for Foo where \
         { fn partial_default () -> Self { Foo } }"
    );
    assert_eq!(
        implementation(
            "< 'a , T : Clone >",
            "< 'a , T >",
            &["T : Ord", "& 'a T : Copy"],
            Constraints::Inferred(vec!["T".to_owned()])
        )
        .render(),
        "# [automatically_derived] impl < 'a , T : Clone > :: partial_default :: PartialDefault \
         for Foo < 'a , T > where T : Ord , & 'a T : Copy , \
         T : :: partial_default :: PartialDefault \
         { fn partial_default () -> Self { Foo } }"
    );
    assert_eq!(
        implementation("< T >", "< T >", &["T : Ord"], Constraints::Explicit(String::new()))
            .render(),
        "# [automatically_derived] impl < T > :: partial_default :: PartialDefault \
         for Foo < T > where T : Ord , { fn partial_default () -> Self { Foo } }"
    );
}
