//! The external tagging of a tagged union on the wire, as the generated
//! classes write and read it: a variant without payload is its tag as a
//! string; any other is an object with one key, its tag, over its payload.

use crate::errors::Error;
use crate::ir::data::{
    data_variant_views, DataEnum, DataEnumVariant, DataEnumVariantView, DataEnumView,
};
use crate::text::prefixed;
use vstd::prelude::*;

pub mod laws;

verus! {

broadcast use vstd::std_specs::vec::group_vec_axioms;

/// A JSON value. A number is kept as its text.
#[derive(Debug, PartialEq, Eq)]
pub enum Json {
    Null,
    Bool(bool),
    Number(String),
    Text(String),
    Array(Vec<Json>),
    Object(Vec<Member>),
}

/// A key of a JSON object with its value.
#[derive(Debug, PartialEq, Eq)]
pub struct Member {
    pub key: String,
    pub value: Json,
}

/// What a [`Json`] holds, all the way down.
pub ghost enum JsonView {
    Null,
    Bool(bool),
    Number(Seq<char>),
    Text(Seq<char>),
    Array(Seq<JsonView>),
    Object(Seq<(Seq<char>, JsonView)>),
}

/// What a variant of a value carries.
#[derive(Debug, PartialEq, Eq)]
pub enum Payload {
    /// Nothing.
    Unit,
    /// The nested value that holds the named fields.
    Object(Json),
    /// The values of the slots, in order.
    Tuple(Vec<Json>),
}

/// A value of a tagged union: the position of its variant in the union's
/// declaration, and its payload.
#[derive(Debug, PartialEq, Eq)]
pub struct Value {
    pub variant: usize,
    pub payload: Payload,
}

/// What a [`Payload`] holds.
pub ghost enum PayloadView {
    Unit,
    Object(JsonView),
    Tuple(Seq<JsonView>),
}

/// What a [`Value`] holds.
pub ghost struct ValueView {
    pub variant: int,
    pub payload: PayloadView,
}

/// What a run of JSON values holds.
pub open spec fn json_views(values: Seq<Json>) -> Seq<JsonView> {
    Seq::new(values.len(), |i: int| values[i].deep())
}

impl Json {
    /// What the value holds, all the way down.
    pub open spec fn deep(self) -> JsonView
        decreases self,
    {
        match self {
            Json::Null => JsonView::Null,
            Json::Bool(b) => JsonView::Bool(b),
            Json::Number(n) => JsonView::Number(n@),
            Json::Text(t) => JsonView::Text(t@),
            Json::Array(items) => JsonView::Array(
                Seq::new(
                    items@.len(),
                    |i: int|
                        if 0 <= i < items@.len() {
                            items@[i].deep()
                        } else {
                            JsonView::Null
                        },
                ),
            ),
            Json::Object(members) => JsonView::Object(
                Seq::new(
                    members@.len(),
                    |i: int|
                        if 0 <= i < members@.len() {
                            (members@[i].key@, members@[i].value.deep())
                        } else {
                            (Seq::empty(), JsonView::Null)
                        },
                ),
            ),
        }
    }
}

impl Payload {
    /// What the payload holds.
    pub open spec fn deep(self) -> PayloadView {
        match self {
            Payload::Unit => PayloadView::Unit,
            Payload::Object(holder) => PayloadView::Object(holder.deep()),
            Payload::Tuple(slots) => PayloadView::Tuple(json_views(slots@)),
        }
    }
}

impl Value {
    /// What the value holds.
    pub open spec fn deep(self) -> ValueView {
        ValueView { variant: self.variant as int, payload: self.payload.deep() }
    }
}

/// `v` is a value of the union `de`: its variant is one of the union's, and
/// its payload has that variant's shape and number of slots.
pub open spec fn fits(de: DataEnumView, v: ValueView) -> bool {
    &&& 0 <= v.variant < de.variants.len()
    &&& match (de.variants[v.variant], v.payload) {
        (DataEnumVariantView::Unit { .. }, PayloadView::Unit) => true,
        (DataEnumVariantView::Object { .. }, PayloadView::Object(_)) => true,
        (DataEnumVariantView::Tuple { fields, .. }, PayloadView::Tuple(slots)) => slots.len()
            == fields.len(),
        _ => false,
    }
}

/// The JSON value that stands for `v` on the wire.
pub open spec fn encoded(de: DataEnumView, v: ValueView) -> JsonView {
    let tag = de.variants[v.variant].json_name();
    match v.payload {
        PayloadView::Unit => JsonView::Text(tag),
        PayloadView::Object(holder) => JsonView::Object(seq![(tag, holder)]),
        PayloadView::Tuple(slots) => if slots.len() == 1 {
            JsonView::Object(seq![(tag, slots[0])])
        } else {
            JsonView::Object(seq![(tag, JsonView::Array(slots))])
        },
    }
}

/// The message of the one error of reading: it names the class by the
/// identifier it is defined under.
pub open spec fn failure(de: DataEnumView) -> Seq<char> {
    "Cannot deserialize "@ + de.self_type
}

/// The first variant at or after `from` that has no payload and the tag `text`.
pub open spec fn first_unit(variants: Seq<DataEnumVariantView>, text: Seq<char>, from: int)
    -> Option<int>
    decreases variants.len() - from,
{
    if from < 0 || from >= variants.len() {
        None
    } else if variants[from] is Unit && variants[from].json_name() == text {
        Some(from)
    } else {
        first_unit(variants, text, from + 1)
    }
}

/// The position of the member of an object that counts for `key`: the last
/// one with that key.
pub open spec fn position(members: Seq<(Seq<char>, JsonView)>, key: Seq<char>) -> Option<int>
    decreases members.len(),
{
    if members.len() == 0 {
        None
    } else if members.last().0 == key {
        Some(members.len() - 1)
    } else {
        position(members.drop_last(), key)
    }
}

/// The first variant at or after `from` that has a payload and whose tag is
/// a key of the object.
pub open spec fn first_tagged(
    variants: Seq<DataEnumVariantView>,
    members: Seq<(Seq<char>, JsonView)>,
    from: int,
) -> Option<int>
    decreases variants.len() - from,
{
    if from < 0 || from >= variants.len() {
        None
    } else if !(variants[from] is Unit) && position(members, variants[from].json_name())
        is Some {
        Some(from)
    } else {
        first_tagged(variants, members, from + 1)
    }
}

/// The values of `arity` slots, read from what stands under a tag. Where
/// `arity` is 1, that is the value of the one slot, whatever it is, an array
/// too. Else it must be an array of exactly `arity` elements, which are the
/// values of the slots.
pub open spec fn slots_in(value: JsonView, arity: nat) -> Option<Seq<JsonView>> {
    if arity == 1 {
        Some(seq![value])
    } else {
        match value {
            JsonView::Array(elements) => if elements.len() == arity {
                Some(elements)
            } else {
                None
            },
            _ => None,
        }
    }
}

/// The value that `json` stands for, or the error of reading. A string is
/// held against the tags of the variants without payload; an object against
/// the tags of the others, in declaration order, and the first variant whose
/// tag is a key decides.
pub open spec fn decoded(de: DataEnumView, json: JsonView) -> Result<ValueView, Seq<char>> {
    match json {
        JsonView::Text(text) => match first_unit(de.variants, text, 0) {
            Some(i) => Ok(ValueView { variant: i, payload: PayloadView::Unit }),
            None => Err(failure(de)),
        },
        JsonView::Object(members) => match first_tagged(de.variants, members, 0) {
            Some(i) => {
                let value = members[position(members, de.variants[i].json_name())->0].1;
                match de.variants[i] {
                    DataEnumVariantView::Object { .. } => match slots_in(value, 1) {
                        Some(slots) => Ok(
                            ValueView { variant: i, payload: PayloadView::Object(slots[0]) },
                        ),
                        None => Err(failure(de)),
                    },
                    DataEnumVariantView::Tuple { fields, .. } => match slots_in(
                        value,
                        fields.len(),
                    ) {
                        Some(slots) => Ok(
                            ValueView { variant: i, payload: PayloadView::Tuple(slots) },
                        ),
                        None => Err(failure(de)),
                    },
                    DataEnumVariantView::Unit { .. } => Err(failure(de)),
                }
            },
            None => Err(failure(de)),
        },
        _ => Err(failure(de)),
    }
}

/// What the members of an object hold.
pub open spec fn member_views(members: Seq<Member>) -> Seq<(Seq<char>, JsonView)> {
    Seq::new(members.len(), |i: int| (members[i].key@, members[i].value.deep()))
}

/// Whether `value` is a value of the union `de`.
pub fn is_value_of(de: &DataEnum, value: &Value) -> (r: bool)
    ensures
        r == fits(de@, value.deep()),
{
    let variants = de.variants();
    if value.variant >= variants.len() {
        return false;
    }
    assert(variants@[value.variant as int]@ == de@.variants[value.variant as int]);
    match (&variants[value.variant], &value.payload) {
        (DataEnumVariant::Unit { .. }, Payload::Unit) => true,
        (DataEnumVariant::Object { .. }, Payload::Object(_)) => true,
        (DataEnumVariant::Tuple { fields, .. }, Payload::Tuple(slots)) => slots.len()
            == fields.len(),
        _ => false,
    }
}

/// Writes `value`, a value of `de`: the bare tag for a variant without
/// payload; else an object from the tag to the payload, which is the single
/// value for a variant with one slot and the array of the values otherwise.
pub fn serialize(de: &DataEnum, value: Value) -> (json: Json)
    requires
        fits(de@, value.deep()),
    ensures
        json.deep() == encoded(de@, value.deep()),
{
    let variants = de.variants();
    assert(variants@[value.variant as int]@ == de@.variants[value.variant as int]);
    let tag = variants[value.variant].json_name().clone();
    match value.payload {
        Payload::Unit => Json::Text(tag),
        Payload::Object(holder) => {
            let json = Json::Object(vec![Member { key: tag, value: holder }]);
            assert(json.deep()->Object_0 =~= seq![(tag@, holder.deep())]);
            json
        },
        Payload::Tuple(slots) => {
            let ghost views = json_views(slots@);
            let mut slots = slots;
            if slots.len() == 1 {
                let slot = slots.remove(0);
                let json = Json::Object(vec![Member { key: tag, value: slot }]);
                assert(json.deep()->Object_0 =~= seq![(tag@, views[0])]);
                json
            } else {
                let array = Json::Array(slots);
                assert(array.deep()->Array_0 =~= views);
                let json = Json::Object(vec![Member { key: tag, value: array }]);
                assert(json.deep()->Object_0 =~= seq![(tag@, JsonView::Array(views))]);
                json
            }
        },
    }
}

/// The error of reading a value of `de`.
fn reading_failed(de: &DataEnum) -> (e: Error)
    ensures
        e@ == failure(de@),
{
    let class_name = de.self_type().name().clone();
    Error::new(prefixed("Cannot deserialize ", class_name.as_str()).as_str())
}

/// The position of the member of `members` that counts for `key`.
fn find_member(members: &Vec<Member>, key: &String) -> (found: Option<usize>)
    ensures
        match found {
            Some(i) => position(member_views(members@), key@) == Some(i as int) && i
                < members@.len(),
            None => position(member_views(members@), key@) is None,
        },
{
    let ghost all = member_views(members@);
    let mut i: usize = members.len();
    assert(all.take(i as int) =~= all);
    while i > 0
        invariant
            i <= members.len(),
            all == member_views(members@),
            position(all, key@) == position(all.take(i as int), key@),
        decreases i,
    {
        proof {
            assert(all.take(i as int).drop_last() =~= all.take(i - 1));
            assert(all.take(i as int).last() == all[i - 1]);
        }
        if members[i - 1].key == *key {
            return Some(i - 1);
        }
        i -= 1;
    }
    None
}

/// Reads the values of `arity` slots from what stands under a tag.
fn read_slots(value: Json, arity: usize) -> (slots: Option<Vec<Json>>)
    ensures
        match slots {
            Some(slots) => slots_in(value.deep(), arity as nat) == Some(json_views(slots@))
                && slots@.len() == arity,
            None => slots_in(value.deep(), arity as nat) is None,
        },
{
    if arity == 1 {
        let slots = vec![value];
        assert(json_views(slots@) =~= seq![value.deep()]);
        return Some(slots);
    }
    match value {
        Json::Array(elements) => {
            if elements.len() == arity {
                assert(json_views(elements@) =~= value.deep()->Array_0);
                Some(elements)
            } else {
                None
            }
        },
        _ => None,
    }
}

/// Reads a value of `de` from `json`, or fails with the error that names
/// the class: where `json` is neither a string nor an object, where no
/// variant claims it, or where the variant that claims it has another number
/// of slots than `json` holds values.
pub fn deserialize(de: &DataEnum, json: Json) -> (r: Result<Value, Error>)
    ensures
        match r {
            Ok(value) => decoded(de@, json.deep()) == Ok::<ValueView, Seq<char>>(value.deep()),
            Err(e) => decoded(de@, json.deep()) == Err::<ValueView, Seq<char>>(e@),
        },
{
    let variants = de.variants();
    let ghost whole = json.deep();
    match json {
        Json::Text(text) => {
            let mut i: usize = 0;
            while i < variants.len()
                invariant
                    i <= variants.len(),
                    whole == json.deep(),
                    whole == JsonView::Text(text@),
                    data_variant_views(variants@) == de@.variants,
                    first_unit(de@.variants, text@, 0) == first_unit(de@.variants, text@, i as int),
                decreases variants.len() - i,
            {
                assert(variants@[i as int]@ == de@.variants[i as int]);
                match &variants[i] {
                    DataEnumVariant::Unit { json_name, .. } => {
                        if *json_name == text {
                            return Ok(Value { variant: i, payload: Payload::Unit });
                        }
                    },
                    _ => {},
                }
                i += 1;
            }
            Err(reading_failed(de))
        },
        Json::Object(members) => {
            let ghost all = member_views(members@);
            assert(all =~= json.deep()->Object_0);
            let mut members = members;
            let mut i: usize = 0;
            while i < variants.len()
                invariant
                    i <= variants.len(),
                    whole == json.deep(),
                    whole == JsonView::Object(all),
                    data_variant_views(variants@) == de@.variants,
                    all == member_views(members@),
                    first_tagged(de@.variants, all, 0) == first_tagged(de@.variants, all, i as int),
                decreases variants.len() - i,
            {
                assert(variants@[i as int]@ == de@.variants[i as int]);
                match &variants[i] {
                    DataEnumVariant::Unit { .. } => {},
                    DataEnumVariant::Object { json_name, .. } => {
                        if let Some(at) = find_member(&members, json_name) {
                            let member = members.remove(at);
                            assert(all[at as int].1 == member.value.deep());
                            return match read_slots(member.value, 1) {
                                Some(mut slots) => {
                                    let holder = slots.remove(0);
                                    Ok(Value { variant: i, payload: Payload::Object(holder) })
                                },
                                None => Err(reading_failed(de)),
                            };
                        }
                    },
                    DataEnumVariant::Tuple { json_name, fields, .. } => {
                        if let Some(at) = find_member(&members, json_name) {
                            let member = members.remove(at);
                            assert(all[at as int].1 == member.value.deep());
                            return match read_slots(member.value, fields.len()) {
                                Some(slots) => Ok(
                                    Value { variant: i, payload: Payload::Tuple(slots) },
                                ),
                                None => Err(reading_failed(de)),
                            };
                        }
                    },
                }
                i += 1;
            }
            Err(reading_failed(de))
        },
        _ => Err(reading_failed(de)),
    }
}

} // verus!
