//! What holds of every value on the wire.

use crate::ir::data::{DataEnumVariantView, DataEnumView};
use crate::wire::{
    decoded, encoded, failure, first_tagged, first_unit, fits, position, slots_in, JsonView,
    PayloadView, ValueView,
};
use vstd::prelude::*;

verus! {

/// The variant at `i` is the first of its kind, with or without payload,
/// that has its tag.
pub open spec fn leads(de: DataEnumView, i: int) -> bool {
    forall|j: int|
        0 <= j < i && ((#[trigger] de.variants[j]) is Unit) == (de.variants[i] is Unit)
            ==> de.variants[j].json_name() != de.variants[i].json_name()
}

/// The search for a variant without payload finds the first that matches.
proof fn lemma_first_unit(variants: Seq<DataEnumVariantView>, text: Seq<char>, from: int, i: int)
    requires
        0 <= from <= i < variants.len(),
        variants[i] is Unit,
        variants[i].json_name() == text,
        forall|j: int|
            from <= j < i ==> !((#[trigger] variants[j]) is Unit && variants[j].json_name()
                == text),
    ensures
        first_unit(variants, text, from) == Some(i),
    decreases i - from,
{
    if from < i {
        lemma_first_unit(variants, text, from + 1, i);
    }
}

/// The search for a variant with a payload finds the first whose tag is a
/// key of the object.
proof fn lemma_first_tagged(
    variants: Seq<DataEnumVariantView>,
    members: Seq<(Seq<char>, JsonView)>,
    from: int,
    i: int,
)
    requires
        0 <= from <= i < variants.len(),
        !(variants[i] is Unit),
        position(members, variants[i].json_name()) is Some,
    ensures
        first_tagged(variants, members, from) is Some,
        from <= first_tagged(variants, members, from)->0 <= i,
        first_tagged(variants, members, from)->0 < i ==> {
            let found = first_tagged(variants, members, from)->0;
            !(variants[found] is Unit) && position(members, variants[found].json_name()) is Some
        },
        (forall|j: int|
            from <= j < i ==> (#[trigger] variants[j]) is Unit || position(
                members,
                variants[j].json_name(),
            ) is None) ==> first_tagged(variants, members, from) == Some(i),
    decreases i - from,
{
    if from < i {
        lemma_first_tagged(variants, members, from + 1, i);
    }
}

/// Round trip: a value of a union, written and read again, is the same
/// value, whatever its slots hold. This is stated of the values for which it
/// holds: the variant must be the first of its kind with its tag, since
/// reading takes the first.
pub proof fn lemma_round_trip(de: DataEnumView, v: ValueView)
    requires
        fits(de, v),
        leads(de, v.variant),
    ensures
        decoded(de, encoded(de, v)) == Ok::<ValueView, Seq<char>>(v),
{
    let i = v.variant;
    let tag = de.variants[i].json_name();
    match v.payload {
        PayloadView::Unit => {
            lemma_first_unit(de.variants, tag, 0, i);
        },
        PayloadView::Object(holder) => {
            let members = seq![(tag, holder)];
            assert(members.last() == (tag, holder));
            assert(members.drop_last() =~= Seq::<(Seq<char>, JsonView)>::empty());
            assert(position(members, tag) == Some(0int));
            assert forall|j: int|
                0 <= j < i implies (#[trigger] de.variants[j]) is Unit || position(
                members,
                de.variants[j].json_name(),
            ) is None by {
                if !(de.variants[j] is Unit) {
                    assert(de.variants[j].json_name() != tag);
                    assert(position(members.drop_last(), de.variants[j].json_name()) is None);
                }
            }
            lemma_first_tagged(de.variants, members, 0, i);
            assert(slots_in(holder, 1) == Some(seq![holder]));
        },
        PayloadView::Tuple(slots) => {
            let value = if slots.len() == 1 {
                slots[0]
            } else {
                JsonView::Array(slots)
            };
            let members = seq![(tag, value)];
            assert(members.last() == (tag, value));
            assert(members.drop_last() =~= Seq::<(Seq<char>, JsonView)>::empty());
            assert(position(members, tag) == Some(0int));
            assert forall|j: int|
                0 <= j < i implies (#[trigger] de.variants[j]) is Unit || position(
                members,
                de.variants[j].json_name(),
            ) is None by {
                if !(de.variants[j] is Unit) {
                    assert(de.variants[j].json_name() != tag);
                    assert(position(members.drop_last(), de.variants[j].json_name()) is None);
                }
            }
            lemma_first_tagged(de.variants, members, 0, i);
            if slots.len() == 1 {
                assert(slots_in(value, 1) == Some(seq![value]));
                assert(seq![value] =~= slots);
            }
        },
    }
}

/// What the search for a variant without payload finds is the first that
/// matches.
proof fn lemma_first_unit_least(
    variants: Seq<DataEnumVariantView>,
    text: Seq<char>,
    from: int,
    j: int,
)
    requires
        0 <= from <= j,
        first_unit(variants, text, from) is Some,
        j < first_unit(variants, text, from)->0,
    ensures
        !(variants[j] is Unit && variants[j].json_name() == text),
    decreases j - from,
{
    if from < j {
        lemma_first_unit_least(variants, text, from + 1, j);
    }
}

/// What the search for a variant with a payload finds is the first whose tag
/// is a key of the object.
proof fn lemma_first_tagged_least(
    variants: Seq<DataEnumVariantView>,
    members: Seq<(Seq<char>, JsonView)>,
    from: int,
    j: int,
)
    requires
        0 <= from <= j,
        first_tagged(variants, members, from) is Some,
        j < first_tagged(variants, members, from)->0,
    ensures
        variants[j] is Unit || position(members, variants[j].json_name()) is None,
    decreases j - from,
{
    if from < j {
        lemma_first_tagged_least(variants, members, from + 1, j);
    }
}

/// The round trip holds only where [`lemma_round_trip`] says so: a value
/// that comes back is of the first variant of its kind with its tag.
pub proof fn lemma_round_trip_only(de: DataEnumView, v: ValueView)
    requires
        fits(de, v),
        decoded(de, encoded(de, v)) == Ok::<ValueView, Seq<char>>(v),
    ensures
        leads(de, v.variant),
{
    let i = v.variant;
    let tag = de.variants[i].json_name();
    match v.payload {
        PayloadView::Unit => {
            assert(first_unit(de.variants, tag, 0) == Some(i));
            assert forall|j: int|
                0 <= j < i && ((#[trigger] de.variants[j]) is Unit) == (de.variants[i]
                    is Unit) implies de.variants[j].json_name() != tag by {
                lemma_first_unit_least(de.variants, tag, 0, j);
            }
        },
        PayloadView::Object(holder) => {
            let members = seq![(tag, holder)];
            assert(members.last() == (tag, holder));
            assert(position(members, tag) == Some(0int));
            assert(first_tagged(de.variants, members, 0) == Some(i));
            assert forall|j: int|
                0 <= j < i && ((#[trigger] de.variants[j]) is Unit) == (de.variants[i]
                    is Unit) implies de.variants[j].json_name() != tag by {
                lemma_first_tagged_least(de.variants, members, 0, j);
            }
        },
        PayloadView::Tuple(slots) => {
            let value = if slots.len() == 1 {
                slots[0]
            } else {
                JsonView::Array(slots)
            };
            let members = seq![(tag, value)];
            assert(members.last() == (tag, value));
            assert(position(members, tag) == Some(0int));
            assert(first_tagged(de.variants, members, 0) == Some(i));
            assert forall|j: int|
                0 <= j < i && ((#[trigger] de.variants[j]) is Unit) == (de.variants[i]
                    is Unit) implies de.variants[j].json_name() != tag by {
                lemma_first_tagged_least(de.variants, members, 0, j);
            }
        },
    }
}

/// What is read is a value of the union: its payload has the shape and the
/// number of slots of its variant, and nothing is cut off or filled in.
pub proof fn lemma_decoded_fits(de: DataEnumView, json: JsonView)
    requires
        decoded(de, json) is Ok,
    ensures
        fits(de, decoded(de, json)->Ok_0),
{
    match json {
        JsonView::Text(text) => {
            lemma_first_unit_found(de.variants, text, 0);
        },
        JsonView::Object(members) => {
            lemma_first_tagged_found(de.variants, members, 0);
        },
        _ => {},
    }
}

/// What the search for a variant without payload finds is such a variant
/// with the tag.
proof fn lemma_first_unit_found(variants: Seq<DataEnumVariantView>, text: Seq<char>, from: int)
    requires
        0 <= from,
    ensures
        match first_unit(variants, text, from) {
            Some(i) => from <= i < variants.len() && variants[i] is Unit
                && variants[i].json_name() == text,
            None => true,
        },
    decreases variants.len() - from,
{
    if from < variants.len() {
        lemma_first_unit_found(variants, text, from + 1);
    }
}

/// What the search for a variant with a payload finds is such a variant whose
/// tag is a key of the object.
proof fn lemma_first_tagged_found(
    variants: Seq<DataEnumVariantView>,
    members: Seq<(Seq<char>, JsonView)>,
    from: int,
)
    requires
        0 <= from,
    ensures
        match first_tagged(variants, members, from) {
            Some(i) => from <= i < variants.len() && !(variants[i] is Unit) && position(
                members,
                variants[i].json_name(),
            ) is Some,
            None => true,
        },
    decreases variants.len() - from,
{
    if from < variants.len() {
        lemma_first_tagged_found(variants, members, from + 1);
    }
}

/// Arity is enforced: where the variant that claims an object is positional
/// with another number of slots than one, and an array stands under its tag,
/// reading fails unless the array has exactly as many elements as the
/// variant has slots. With one slot the array is the value of the slot.
pub proof fn lemma_arity_enforced(
    de: DataEnumView,
    members: Seq<(Seq<char>, JsonView)>,
    elements: Seq<JsonView>,
)
    requires
        first_tagged(de.variants, members, 0) is Some,
        de.variants[first_tagged(de.variants, members, 0)->0] is Tuple,
        members[position(
            members,
            de.variants[first_tagged(de.variants, members, 0)->0].json_name(),
        )->0].1 == JsonView::Array(elements),
        elements.len() != de.variants[first_tagged(de.variants, members, 0)->0]->Tuple_fields.len(),
        de.variants[first_tagged(de.variants, members, 0)->0]->Tuple_fields.len() != 1,
    ensures
        decoded(de, JsonView::Object(members)) == Err::<ValueView, Seq<char>>(failure(de)),
{
}

/// The first declared variant wins: where the tags of two variants with a
/// payload are both keys of an object, the object is never read as the one
/// declared later.
pub proof fn lemma_first_declared_wins(
    de: DataEnumView,
    members: Seq<(Seq<char>, JsonView)>,
    i: int,
    j: int,
)
    requires
        0 <= i < j < de.variants.len(),
        !(de.variants[i] is Unit),
        !(de.variants[j] is Unit),
        position(members, de.variants[i].json_name()) is Some,
        position(members, de.variants[j].json_name()) is Some,
    ensures
        match decoded(de, JsonView::Object(members)) {
            Ok(v) => v.variant <= i,
            Err(_) => true,
        },
{
    lemma_first_tagged(de.variants, members, 0, i);
}

/// An object is read as the first declared variant with a payload whose tag
/// is one of its keys, whatever other keys it has.
pub proof fn lemma_first_tagged_decides(
    de: DataEnumView,
    members: Seq<(Seq<char>, JsonView)>,
    i: int,
)
    requires
        0 <= i < de.variants.len(),
        !(de.variants[i] is Unit),
        position(members, de.variants[i].json_name()) is Some,
        forall|j: int|
            0 <= j < i ==> (#[trigger] de.variants[j]) is Unit || position(
                members,
                de.variants[j].json_name(),
            ) is None,
    ensures
        match decoded(de, JsonView::Object(members)) {
            Ok(v) => v.variant == i,
            Err(_) => true,
        },
{
    lemma_first_tagged(de.variants, members, 0, i);
}

} // verus!
