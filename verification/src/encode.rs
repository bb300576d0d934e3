//! Writing values as JSON documents, and the law that ties writing to
//! reading: what was written reads back as itself.

use crate::decode::{
    decoded_each, defaulted, optional, required, required_list, DecodeError, FromJson,
};
use crate::json::{find_member, lemma_array_view, Json, JsonValue, JsonNumber, NumberValue};
use vstd::prelude::*;

verus! {

/// A type whose values can be written as a JSON document.
pub trait ToJson: FromJson {
    /// Whether the value reads back as itself once written. It does unless
    /// it holds, where a document may be absent, the document `null`: that
    /// one reads back as absent.
    spec fn writable(value: Self::V) -> bool;

    /// The document that a value is written as.
    spec fn encoded(value: Self::V) -> JsonValue;

    fn to_json(&self) -> (r: Json)
        ensures
            r@ == Self::encoded(self.deep_view()),
    ;

    /// What was written reads back as itself, at whatever place it stands,
    /// and is never mistaken for an absent value.
    proof fn lemma_round_trip(value: Self::V, place: &'static str)
        requires
            Self::writable(value),
        ensures
            Self::decoded(Self::encoded(value), place) == Ok::<Self::V, DecodeError>(value),
            !(Self::encoded(value) is Null),
    ;
}

impl ToJson for String {
    open spec fn writable(value: Seq<char>) -> bool {
        true
    }

    open spec fn encoded(value: Seq<char>) -> JsonValue {
        JsonValue::String(value)
    }

    fn to_json(&self) -> (r: Json) {
        Json::String(self.clone())
    }

    proof fn lemma_round_trip(value: Seq<char>, place: &'static str) {
    }
}

impl ToJson for u16 {
    open spec fn writable(value: u16) -> bool {
        true
    }

    open spec fn encoded(value: u16) -> JsonValue {
        JsonValue::Number(NumberValue::Unsigned(value as u64))
    }

    fn to_json(&self) -> (r: Json) {
        Json::Number(JsonNumber::Unsigned(*self as u64))
    }

    proof fn lemma_round_trip(value: u16, place: &'static str) {
    }
}

impl ToJson for bool {
    open spec fn writable(value: bool) -> bool {
        true
    }

    open spec fn encoded(value: bool) -> JsonValue {
        JsonValue::Bool(value)
    }

    fn to_json(&self) -> (r: Json) {
        Json::Bool(*self)
    }

    proof fn lemma_round_trip(value: bool, place: &'static str) {
    }
}

impl ToJson for Json {
    open spec fn writable(value: JsonValue) -> bool {
        !(value is Null)
    }

    open spec fn encoded(value: JsonValue) -> JsonValue {
        value
    }

    fn to_json(&self) -> (r: Json) {
        self.clone()
    }

    proof fn lemma_round_trip(value: JsonValue, place: &'static str) {
    }
}

/// An optional value is written as itself, or as `null` where it is absent.
pub open spec fn encoded_optional<T: ToJson>(value: Option<T::V>) -> JsonValue {
    match value {
        Some(v) => T::encoded(v),
        None => JsonValue::Null,
    }
}

/// An optional value is writable where it is absent or what it holds is.
pub open spec fn writable_optional<T: ToJson>(value: Option<T::V>) -> bool {
    value matches Some(v) ==> T::writable(v)
}

/// A list is written element by element.
pub open spec fn encoded_each<T: ToJson>(values: Seq<T::V>) -> Seq<JsonValue> {
    Seq::new(values.len(), |i: int| T::encoded(values[i]))
}

/// A list is writable where each of its elements is.
pub open spec fn writable_each<T: ToJson>(values: Seq<T::V>) -> bool {
    forall|i: int| 0 <= i < values.len() ==> T::writable(#[trigger] values[i])
}

pub fn write_optional<T: ToJson>(value: &Option<T>) -> (r: Json)
    ensures
        r@ == encoded_optional::<T>(value.deep_view()),
{
    match value {
        Some(v) => v.to_json(),
        None => Json::Null,
    }
}

pub fn write_each<T: ToJson>(values: &Vec<T>) -> (r: Json)
    ensures
        r@ == JsonValue::Array(encoded_each::<T>(values.deep_view())),
{
    let mut items: Vec<Json> = Vec::new();
    let mut i: usize = 0;
    while i < values.len()
        invariant
            i <= values.len(),
            items.len() == i,
            forall|k: int| 0 <= k < i ==> (#[trigger] items[k])@ == T::encoded(values[k].deep_view()),
        decreases values.len() - i,
    {
        items.push(values[i].to_json());
        i += 1;
    }
    proof {
        lemma_array_view(items);
        assert(items.deep_view() =~= encoded_each::<T>(values.deep_view()));
    }
    Json::Array(items)
}

/// A member is found under its name where no member before it has that
/// name.
pub proof fn lemma_find_member(members: Seq<(Seq<char>, JsonValue)>, i: int)
    requires
        0 <= i < members.len(),
        forall|k: int| 0 <= k < i ==> (#[trigger] members[k]).0 != members[i].0,
    ensures
        find_member(members, members[i].0) == Some(members[i].1),
    decreases i,
{
    if i > 0 {
        let rest = members.drop_first();
        assert(members[0].0 != members[i].0);
        assert forall|k: int| 0 <= k < i - 1 implies (#[trigger] rest[k]).0 != rest[i - 1].0 by {
            assert(rest[k] == members[k + 1]);
        }
        lemma_find_member(rest, i - 1);
    }
}

/// A written list reads back as itself.
pub proof fn lemma_round_trip_each<T: ToJson>(values: Seq<T::V>, place: &'static str)
    requires
        writable_each::<T>(values),
    ensures
        decoded_each::<T>(encoded_each::<T>(values), place) == Ok::<Seq<T::V>, DecodeError>(
            values,
        ),
    decreases values.len(),
{
    let written = encoded_each::<T>(values);
    if values.len() == 0 {
        assert(values =~= Seq::<T::V>::empty());
    } else {
        let front = values.drop_last();
        assert(written.drop_last() =~= encoded_each::<T>(front));
        assert forall|i: int| 0 <= i < front.len() implies T::writable(#[trigger] front[i]) by {
            assert(front[i] == values[i]);
        }
        lemma_round_trip_each::<T>(front, place);
        assert(T::writable(values[values.len() - 1]));
        T::lemma_round_trip(values.last(), place);
        assert(written.last() == T::encoded(values.last()));
        assert(front.push(values.last()) =~= values);
    }
}

/// A written member reads back, wherever it is required, optional or has a
/// default, as what was written.
pub proof fn lemma_round_trip_member<T: ToJson>(
    members: Seq<(Seq<char>, JsonValue)>,
    i: int,
    key: &'static str,
    value: T::V,
)
    requires
        0 <= i < members.len(),
        members[i] == (key@, T::encoded(value)),
        T::writable(value),
        forall|k: int| 0 <= k < i ==> (#[trigger] members[k]).0 != key@,
    ensures
        required::<T>(JsonValue::Object(members), key) == Ok::<T::V, DecodeError>(value),
        optional::<T>(JsonValue::Object(members), key) == Ok::<Option<T::V>, DecodeError>(
            Some(value),
        ),
        forall|default: T::V|
            #[trigger] defaulted::<T>(JsonValue::Object(members), key, default) == Ok::<
                T::V,
                DecodeError,
            >(value),
{
    lemma_find_member(members, i);
    T::lemma_round_trip(value, key);
}

/// A written optional member reads back as what was written.
pub proof fn lemma_round_trip_optional<T: ToJson>(
    members: Seq<(Seq<char>, JsonValue)>,
    i: int,
    key: &'static str,
    value: Option<T::V>,
)
    requires
        0 <= i < members.len(),
        members[i] == (key@, encoded_optional::<T>(value)),
        writable_optional::<T>(value),
        forall|k: int| 0 <= k < i ==> (#[trigger] members[k]).0 != key@,
    ensures
        optional::<T>(JsonValue::Object(members), key) == Ok::<Option<T::V>, DecodeError>(value),
{
    lemma_find_member(members, i);
    if value is Some {
        T::lemma_round_trip(value->0, key);
    }
}

/// A written list member reads back as what was written.
pub proof fn lemma_round_trip_list<T: ToJson>(
    members: Seq<(Seq<char>, JsonValue)>,
    i: int,
    key: &'static str,
    values: Seq<T::V>,
)
    requires
        0 <= i < members.len(),
        members[i] == (key@, JsonValue::Array(encoded_each::<T>(values))),
        writable_each::<T>(values),
        forall|k: int| 0 <= k < i ==> (#[trigger] members[k]).0 != key@,
    ensures
        required_list::<T>(JsonValue::Object(members), key) == Ok::<Seq<T::V>, DecodeError>(
            values,
        ),
{
    lemma_find_member(members, i);
    lemma_round_trip_each::<T>(values, key);
}

} // verus!
