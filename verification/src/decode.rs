//! Reading values out of JSON documents.
//!
//! A value is read from the place where it stands: the name of the member
//! that holds it. An error names the place at which the document fails.

use crate::json::{Json, JsonValue};
use vstd::prelude::*;

verus! {

/// Why a document is not the value that was asked for.
#[derive(Debug, Clone, Copy, PartialEq, Eq)]
pub enum DecodeError {
    /// The text is no JSON document.
    Syntax,
    /// A required member is absent.
    MissingField(&'static str),
    /// The value at this place is not of the type that the place asks for.
    TypeMismatch(&'static str),
    /// The array at this place has too few or too many elements.
    LengthMismatch(&'static str),
    /// The tag at this place is not one of the known ones.
    UnknownVariant(&'static str),
}

/// Whether an outcome is the one that the model gives: the same error, or a
/// value with the model's view.
pub open spec fn agrees<T: DeepView>(
    outcome: Result<T, DecodeError>,
    model: Result<T::V, DecodeError>,
) -> bool {
    match outcome {
        Ok(value) => model == Ok::<T::V, DecodeError>(value.deep_view()),
        Err(error) => model == Err::<T::V, DecodeError>(error),
    }
}

/// A type whose values can be read out of a JSON document.
pub trait FromJson: DeepView + Sized {
    /// What the document `json`, found at `place`, holds of this type.
    spec fn decoded(json: JsonValue, place: &'static str) -> Result<Self::V, DecodeError>;

    fn from_json(json: &Json, place: &'static str) -> (r: Result<Self, DecodeError>)
        ensures
            agrees(r, Self::decoded(json@, place)),
    ;
}

impl FromJson for String {
    open spec fn decoded(json: JsonValue, place: &'static str) -> Result<Seq<char>, DecodeError> {
        match json.text() {
            Some(text) => Ok(text),
            None => Err(DecodeError::TypeMismatch(place)),
        }
    }

    fn from_json(json: &Json, place: &'static str) -> (r: Result<String, DecodeError>) {
        match json.as_str() {
            Some(text) => Ok(text.clone()),
            None => Err(DecodeError::TypeMismatch(place)),
        }
    }
}

impl FromJson for u16 {
    open spec fn decoded(json: JsonValue, place: &'static str) -> Result<u16, DecodeError> {
        match json.small() {
            Some(n) => Ok(n),
            None => Err(DecodeError::TypeMismatch(place)),
        }
    }

    fn from_json(json: &Json, place: &'static str) -> (r: Result<u16, DecodeError>) {
        match json.as_u16() {
            Some(n) => Ok(n),
            None => Err(DecodeError::TypeMismatch(place)),
        }
    }
}

impl FromJson for bool {
    open spec fn decoded(json: JsonValue, place: &'static str) -> Result<bool, DecodeError> {
        match json.flag() {
            Some(b) => Ok(b),
            None => Err(DecodeError::TypeMismatch(place)),
        }
    }

    fn from_json(json: &Json, place: &'static str) -> (r: Result<bool, DecodeError>) {
        match json.as_bool() {
            Some(b) => Ok(b),
            None => Err(DecodeError::TypeMismatch(place)),
        }
    }
}

impl FromJson for Json {
    open spec fn decoded(json: JsonValue, place: &'static str) -> Result<JsonValue, DecodeError> {
        Ok(json)
    }

    fn from_json(json: &Json, place: &'static str) -> (r: Result<Json, DecodeError>) {
        Ok(json.clone())
    }
}

/// The member `key` of `json`, which must be there.
pub open spec fn required<T: FromJson>(json: JsonValue, key: &'static str) -> Result<
    T::V,
    DecodeError,
> {
    match json.member(key@) {
        Some(value) => T::decoded(value, key),
        None => Err(DecodeError::MissingField(key)),
    }
}

/// The member `key` of `json`, or nothing where it is absent or `null`.
pub open spec fn optional<T: FromJson>(json: JsonValue, key: &'static str) -> Result<
    Option<T::V>,
    DecodeError,
> {
    match json.member(key@) {
        Some(value) if !(value is Null) => match T::decoded(value, key) {
            Ok(v) => Ok(Some(v)),
            Err(e) => Err(e),
        },
        _ => Ok(None),
    }
}

/// The member `key` of `json`, or `default` where it is absent.
pub open spec fn defaulted<T: FromJson>(json: JsonValue, key: &'static str, default: T::V) -> Result<
    T::V,
    DecodeError,
> {
    match json.member(key@) {
        Some(value) => T::decoded(value, key),
        None => Ok(default),
    }
}

/// The elements of `items`, each read at `place`; the error of the first
/// one that fails.
pub open spec fn decoded_each<T: FromJson>(items: Seq<JsonValue>, place: &'static str) -> Result<
    Seq<T::V>,
    DecodeError,
>
    decreases items.len(),
{
    if items.len() == 0 {
        Ok(Seq::empty())
    } else {
        match decoded_each::<T>(items.drop_last(), place) {
            Err(e) => Err(e),
            Ok(front) => match T::decoded(items.last(), place) {
                Err(e) => Err(e),
                Ok(value) => Ok(front.push(value)),
            },
        }
    }
}

/// The member `key` of `json`, which must be there and be an array.
pub open spec fn required_list<T: FromJson>(json: JsonValue, key: &'static str) -> Result<
    Seq<T::V>,
    DecodeError,
> {
    match json.member(key@) {
        Some(value) => match value.items() {
            Some(items) => decoded_each::<T>(items, key),
            None => Err(DecodeError::TypeMismatch(key)),
        },
        None => Err(DecodeError::MissingField(key)),
    }
}

/// An error among the first elements is the error of the whole.
pub proof fn lemma_decoded_each_fails_early<T: FromJson>(
    items: Seq<JsonValue>,
    place: &'static str,
    k: int,
)
    requires
        0 <= k <= items.len(),
        decoded_each::<T>(items.take(k), place) is Err,
    ensures
        decoded_each::<T>(items, place) == decoded_each::<T>(items.take(k), place),
    decreases items.len() - k,
{
    if k < items.len() {
        assert(items.take(k + 1).drop_last() =~= items.take(k));
        lemma_decoded_each_fails_early::<T>(items, place, k + 1);
    } else {
        assert(items.take(k) =~= items);
    }
}

pub fn read_required<T: FromJson>(json: &Json, key: &'static str) -> (r: Result<T, DecodeError>)
    ensures
        agrees(r, required::<T>(json@, key)),
{
    match json.get(key) {
        Some(value) => T::from_json(value, key),
        None => Err(DecodeError::MissingField(key)),
    }
}

pub fn read_optional<T: FromJson>(json: &Json, key: &'static str) -> (r: Result<
    Option<T>,
    DecodeError,
>)
    ensures
        agrees(r, optional::<T>(json@, key)),
{
    match json.get(key) {
        Some(value) => {
            if value.is_null() {
                Ok(None)
            } else {
                match T::from_json(value, key) {
                    Ok(v) => Ok(Some(v)),
                    Err(e) => Err(e),
                }
            }
        },
        None => Ok(None),
    }
}

pub fn read_defaulted<T: FromJson>(json: &Json, key: &'static str, default: T) -> (r: Result<
    T,
    DecodeError,
>)
    ensures
        agrees(r, defaulted::<T>(json@, key, default.deep_view())),
{
    match json.get(key) {
        Some(value) => T::from_json(value, key),
        None => Ok(default),
    }
}

pub fn read_each<T: FromJson>(items: &Vec<Json>, place: &'static str) -> (r: Result<
    Vec<T>,
    DecodeError,
>)
    ensures
        agrees(r, decoded_each::<T>(items.deep_view(), place)),
{
    let ghost all = items.deep_view();
    let mut values: Vec<T> = Vec::new();
    let mut i: usize = 0;
    assert(values.deep_view() =~= Seq::<T::V>::empty());
    while i < items.len()
        invariant
            i <= items.len(),
            all == items.deep_view(),
            decoded_each::<T>(all.take(i as int), place) == Ok::<Seq<T::V>, DecodeError>(
                values.deep_view(),
            ),
        decreases items.len() - i,
    {
        proof {
            assert(all.take(i + 1).drop_last() =~= all.take(i as int));
            assert(all.take(i + 1).last() == items[i as int].deep_view());
        }
        match T::from_json(&items[i], place) {
            Ok(value) => {
                let ghost before = values.deep_view();
                values.push(value);
                assert(values.deep_view() =~= before.push(value.deep_view()));
            },
            Err(e) => {
                proof {
                    lemma_decoded_each_fails_early::<T>(all, place, i + 1);
                }
                return Err(e);
            },
        }
        i += 1;
    }
    assert(all.take(i as int) =~= all);
    Ok(values)
}

pub fn read_required_list<T: FromJson>(json: &Json, key: &'static str) -> (r: Result<
    Vec<T>,
    DecodeError,
>)
    ensures
        agrees(r, required_list::<T>(json@, key)),
{
    match json.get(key) {
        Some(value) => match value.as_array() {
            Some(items) => read_each::<T>(items, key),
            None => Err(DecodeError::TypeMismatch(key)),
        },
        None => Err(DecodeError::MissingField(key)),
    }
}

} // verus!
