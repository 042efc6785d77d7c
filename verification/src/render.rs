//! The generated implementation as text: its tokens, printed one after the
//! other with a space between them.

use crate::declaration::views;
use crate::generated::{
    Body, BodyView, Constraints, ConstraintsView, Construction, ConstructionView, FieldInit,
    FieldInitView, FieldValue, FieldValueView, GeneratedImplementation,
    GeneratedImplementationView,
};
use vstd::prelude::*;
use vstd::string::*;

verus! {

/// What every generated implementation begins with.
pub const IMPL_HEAD: &'static str = "# [automatically_derived] impl";

/// What stands between the generic parameters and the type's name.
pub const TRAIT_FOR: &'static str = " :: partial_default :: PartialDefault for ";

/// What opens the constraints.
pub const WHERE: &'static str = " where";

/// What stands between the constraints and the construction.
pub const METHOD_HEAD: &'static str = " { fn partial_default () -> Self { ";

/// What every generated implementation ends with.
pub const METHOD_TAIL: &'static str = " } }";

/// The constraint that is inferred for a type parameter, after its name.
pub const CAPABILITY: &'static str = " : :: partial_default :: PartialDefault";

/// The partial default of a field's own type.
pub const RECURSIVE_CALL: &'static str =
    ":: partial_default :: PartialDefault :: partial_default ()";

/// What stands between the items of a list.
pub const COMMA: &'static str = " , ";

/// `parts`, one after the other, with `separator` between each two.
pub open spec fn joined(parts: Seq<Seq<char>>, separator: Seq<char>) -> Seq<char>
    decreases parts.len(),
{
    if parts.len() == 0 {
        Seq::empty()
    } else if parts.len() == 1 {
        parts[0]
    } else {
        joined(parts.drop_last(), separator) + separator + parts.last()
    }
}

/// `text` after a space, or nothing where `text` is empty.
pub open spec fn spaced(text: Seq<char>) -> Seq<char> {
    if text.len() == 0 {
        text
    } else {
        " "@ + text
    }
}

/// The text of the value of one field.
pub open spec fn value_text(value: FieldValueView) -> Seq<char> {
    match value {
        FieldValueView::Recursive => RECURSIVE_CALL@,
        FieldValueView::Verbatim(tokens) => tokens,
    }
}

/// The text of one entry of a record: the label, a colon, the value.
pub open spec fn init_text(init: FieldInitView) -> Seq<char> {
    match init.label {
        Some(label) => label + " : "@ + value_text(init.value),
        None => ": "@ + value_text(init.value),
    }
}

/// The texts of the values, in order.
pub open spec fn value_texts(values: Seq<FieldValueView>) -> Seq<Seq<char>> {
    Seq::new(values.len(), |i: int| value_text(values[i]))
}

/// The texts of the entries, in order.
pub open spec fn init_texts(inits: Seq<FieldInitView>) -> Seq<Seq<char>> {
    Seq::new(inits.len(), |i: int| init_text(inits[i]))
}

/// The text of what follows the name in a construction.
pub open spec fn body_text(body: BodyView) -> Seq<char> {
    match body {
        BodyView::Unit => Seq::empty(),
        BodyView::Tuple(values) => " ("@ + joined(value_texts(values), COMMA@) + ")"@,
        BodyView::Record(inits) => " {"@ + spaced(joined(init_texts(inits), COMMA@)) + " }"@,
    }
}

/// The text of a construction: the type's name, the variant where there is
/// one, and the values.
pub open spec fn construction_text(construction: ConstructionView) -> Seq<char> {
    construction.owner + (match construction.variant {
        Some(variant) => " :: "@ + variant,
        None => Seq::empty(),
    }) + body_text(construction.body)
}

/// The inferred constraint of each type parameter, in order.
pub open spec fn capability_bounds(params: Seq<Seq<char>>) -> Seq<Seq<char>> {
    Seq::new(params.len(), |i: int| params[i] + CAPABILITY@)
}

/// The text of the added constraints.
pub open spec fn constraints_text(constraints: ConstraintsView) -> Seq<char> {
    match constraints {
        ConstraintsView::Inferred(params) => joined(capability_bounds(params), COMMA@),
        ConstraintsView::Explicit(tokens) => tokens,
    }
}

/// The declaration's own predicates, each after a space and before a comma.
pub open spec fn predicates_text(predicates: Seq<Seq<char>>) -> Seq<char>
    decreases predicates.len(),
{
    if predicates.len() == 0 {
        Seq::empty()
    } else {
        predicates_text(predicates.drop_last()) + " "@ + predicates.last() + " ,"@
    }
}

/// The text of a generated implementation.
pub open spec fn implementation_text(implementation: GeneratedImplementationView) -> Seq<char> {
    IMPL_HEAD@ + spaced(implementation.impl_generics) + TRAIT_FOR@ + implementation.name + spaced(
        implementation.type_generics,
    ) + WHERE@ + predicates_text(implementation.where_predicates) + spaced(
        constraints_text(implementation.constraints),
    ) + METHOD_HEAD@ + construction_text(implementation.construction) + METHOD_TAIL@
}

/// Appends `parts` to `out`, with `separator` between each two.
fn append_joined(out: &mut String, parts: &Vec<String>, separator: &str)
    ensures
        final(out)@ == old(out)@ + joined(views(parts@), separator@),
{
    let ghost all = views(parts@);
    let mut index: usize = 0;
    while index < parts.len()
        invariant
            index <= parts.len(),
            all == views(parts@),
            out@ == old(out)@ + joined(all.take(index as int), separator@),
        decreases parts.len() - index,
    {
        proof {
            assert(all.take(index + 1).drop_last() =~= all.take(index as int));
            assert(all.take(index + 1).last() == parts@[index as int]@);
        }
        if index > 0 {
            out.append(separator);
        }
        out.append(parts[index].as_str());
        proof {
            if index == 0 {
                assert(joined(all.take(0), separator@) =~= Seq::<char>::empty());
            }
            assert(out@ =~= old(out)@ + joined(all.take(index + 1), separator@));
        }
        index = index + 1;
    }
    assert(all.take(parts.len() as int) =~= all);
}

/// Appends `text` to `out` after a space, or nothing where `text` is empty.
fn append_spaced(out: &mut String, text: &str)
    ensures
        final(out)@ == old(out)@ + spaced(text@),
{
    if !text.is_empty() {
        out.append(" ");
        out.append(text);
    }
    assert(out@ =~= old(out)@ + spaced(text@));
}

impl FieldValue {
    /// Returns the text of the value.
    pub fn render(&self) -> (text: String)
        ensures
            text@ == value_text(self@),
    {
        match self {
            FieldValue::Recursive => RECURSIVE_CALL.to_owned(),
            FieldValue::Verbatim(tokens) => tokens.clone(),
        }
    }
}

impl FieldInit {
    /// Returns the text of the entry.
    pub fn render(&self) -> (text: String)
        ensures
            text@ == init_text(self@),
    {
        let mut text = match &self.label {
            Some(label) => {
                let mut labelled = label.clone();
                labelled.append(" : ");
                labelled
            },
            None => ": ".to_owned(),
        };
        let value = self.value.render();
        text.append(value.as_str());
        text
    }
}

impl Body {
    /// Returns the text of what follows the name in a construction.
    pub fn render(&self) -> (text: String)
        ensures
            text@ == body_text(self@),
    {
        let mut text = String::new();
        match self {
            Body::Unit => {
                assert(text@ =~= body_text(self@));
            },
            Body::Tuple(values) => {
                let mut parts: Vec<String> = Vec::new();
                let mut index: usize = 0;
                while index < values.len()
                    invariant
                        index <= values.len(),
                        parts@.len() == index,
                        forall|i: int|
                            0 <= i < index ==> (#[trigger] parts@[i])@ == value_text(values@[i]@),
                    decreases values.len() - index,
                {
                    parts.push(values[index].render());
                    index = index + 1;
                }
                assert(views(parts@) =~= value_texts(views(values@)));
                text.append(" (");
                append_joined(&mut text, &parts, COMMA);
                text.append(")");
                assert(text@ =~= body_text(self@));
            },
            Body::Record(inits) => {
                let mut parts: Vec<String> = Vec::new();
                let mut index: usize = 0;
                while index < inits.len()
                    invariant
                        index <= inits.len(),
                        parts@.len() == index,
                        forall|i: int|
                            0 <= i < index ==> (#[trigger] parts@[i])@ == init_text(inits@[i]@),
                    decreases inits.len() - index,
                {
                    parts.push(inits[index].render());
                    index = index + 1;
                }
                assert(views(parts@) =~= init_texts(views(inits@)));
                let mut list = String::new();
                append_joined(&mut list, &parts, COMMA);
                assert(list@ =~= joined(init_texts(views(inits@)), COMMA@));
                text.append(" {");
                append_spaced(&mut text, list.as_str());
                text.append(" }");
                assert(text@ =~= body_text(self@));
            },
        }
        text
    }
}

impl Construction {
    /// Returns the text of the construction.
    pub fn render(&self) -> (text: String)
        ensures
            text@ == construction_text(self@),
    {
        let mut text = self.owner.clone();
        match &self.variant {
            Some(variant) => {
                text.append(" :: ");
                text.append(variant.as_str());
            },
            None => {},
        }
        let body = self.body.render();
        text.append(body.as_str());
        assert(text@ =~= construction_text(self@));
        text
    }
}

impl Constraints {
    /// Returns the text of the added constraints.
    pub fn render(&self) -> (text: String)
        ensures
            text@ == constraints_text(self@),
    {
        match self {
            Constraints::Inferred(params) => {
                let mut parts: Vec<String> = Vec::new();
                let mut index: usize = 0;
                while index < params.len()
                    invariant
                        index <= params.len(),
                        parts@.len() == index,
                        forall|i: int|
                            0 <= i < index ==> (#[trigger] parts@[i])@ == params@[i]@
                                + CAPABILITY@,
                    decreases params.len() - index,
                {
                    let mut bound = params[index].clone();
                    bound.append(CAPABILITY);
                    parts.push(bound);
                    index = index + 1;
                }
                assert(views(parts@) =~= capability_bounds(views(params@)));
                let mut text = String::new();
                append_joined(&mut text, &parts, COMMA);
                assert(text@ =~= constraints_text(self@));
                text
            },
            Constraints::Explicit(tokens) => tokens.clone(),
        }
    }
}

impl GeneratedImplementation {
    /// Returns the text of the implementation.
    pub fn render(&self) -> (text: String)
        ensures
            text@ == implementation_text(self@),
    {
        let mut text = IMPL_HEAD.to_owned();
        append_spaced(&mut text, self.impl_generics.as_str());
        text.append(TRAIT_FOR);
        text.append(self.name.as_str());
        append_spaced(&mut text, self.type_generics.as_str());
        text.append(WHERE);
        let ghost before = text@;
        let ghost predicates = views(self.where_predicates@);
        let mut index: usize = 0;
        while index < self.where_predicates.len()
            invariant
                index <= self.where_predicates.len(),
                predicates == views(self.where_predicates@),
                text@ == before + predicates_text(predicates.take(index as int)),
            decreases self.where_predicates.len() - index,
        {
            proof {
                assert(predicates.take(index + 1).drop_last() =~= predicates.take(index as int));
                assert(predicates.take(index + 1).last() == self.where_predicates@[index as int]@);
            }
            text.append(" ");
            text.append(self.where_predicates[index].as_str());
            text.append(" ,");
            assert(text@ =~= before + predicates_text(predicates.take(index + 1)));
            index = index + 1;
        }
        assert(predicates.take(self.where_predicates.len() as int) =~= predicates);
        let constraints = self.constraints.render();
        append_spaced(&mut text, constraints.as_str());
        text.append(METHOD_HEAD);
        let construction = self.construction.render();
        text.append(construction.as_str());
        text.append(METHOD_TAIL);
        assert(text@ =~= implementation_text(self@));
        text
    }
}

} // verus!
