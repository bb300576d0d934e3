//! JSON documents as plain values.
//!
//! The text of a document is read by `serde_json`; everything that looks
//! inside a document works on [`Json`], a tree that this crate owns.

use serde_json::Value;
use vstd::prelude::*;

verus! {

/// A JSON number: what `serde_json` keeps of it.
#[derive(Debug, PartialEq, Eq)]
pub enum JsonNumber {
    /// A non-negative integer.
    Unsigned(u64),
    /// A negative integer.
    Negative(i64),
    /// Any other number, by its decimal text.
    Real(String),
}

/// The mathematical value of a [`JsonNumber`].
pub ghost enum NumberValue {
    Unsigned(u64),
    Negative(i64),
    Real(Seq<char>),
}

impl DeepView for JsonNumber {
    type V = NumberValue;

    open spec fn deep_view(&self) -> NumberValue {
        match self {
            JsonNumber::Unsigned(n) => NumberValue::Unsigned(*n),
            JsonNumber::Negative(n) => NumberValue::Negative(*n),
            JsonNumber::Real(text) => NumberValue::Real(text@),
        }
    }
}

impl View for JsonNumber {
    type V = NumberValue;

    open spec fn view(&self) -> NumberValue {
        self.deep_view()
    }
}

impl Clone for JsonNumber {
    fn clone(&self) -> (r: Self)
        ensures
            r@ == self@,
    {
        match self {
            JsonNumber::Unsigned(n) => JsonNumber::Unsigned(*n),
            JsonNumber::Negative(n) => JsonNumber::Negative(*n),
            JsonNumber::Real(text) => JsonNumber::Real(text.clone()),
        }
    }
}

/// A JSON document.
///
/// The members of an object are kept in a list; a key is looked up from the
/// front, so the first member of a name is the one that counts.
#[derive(Debug, PartialEq, Eq)]
pub enum Json {
    Null,
    Bool(bool),
    Number(JsonNumber),
    String(String),
    Array(Vec<Json>),
    Object(Vec<(String, Json)>),
}

/// The mathematical value of a [`Json`] document.
pub ghost enum JsonValue {
    Null,
    Bool(bool),
    Number(NumberValue),
    String(Seq<char>),
    Array(Seq<JsonValue>),
    Object(Seq<(Seq<char>, JsonValue)>),
}

impl DeepView for Json {
    type V = JsonValue;

    open spec fn deep_view(&self) -> JsonValue
        decreases self,
    {
        match self {
            Json::Null => JsonValue::Null,
            Json::Bool(b) => JsonValue::Bool(*b),
            Json::Number(n) => JsonValue::Number(n@),
            Json::String(s) => JsonValue::String(s@),
            Json::Array(items) => JsonValue::Array(
                Seq::new(
                    items.len() as nat,
                    |i: int|
                        if 0 <= i < items.len() {
                            items[i].deep_view()
                        } else {
                            JsonValue::Null
                        },
                ),
            ),
            Json::Object(members) => JsonValue::Object(
                Seq::new(
                    members.len() as nat,
                    |i: int|
                        if 0 <= i < members.len() {
                            (members[i].0@, members[i].1.deep_view())
                        } else {
                            (Seq::empty(), JsonValue::Null)
                        },
                ),
            ),
        }
    }
}

impl View for Json {
    type V = JsonValue;

    open spec fn view(&self) -> JsonValue {
        self.deep_view()
    }
}

impl Clone for Json {
    fn clone(&self) -> (r: Self)
        ensures
            r@ == self@,
        decreases self,
    {
        match self {
            Json::Null => Json::Null,
            Json::Bool(b) => Json::Bool(*b),
            Json::Number(n) => Json::Number(n.clone()),
            Json::String(s) => Json::String(s.clone()),
            Json::Array(items) => {
                let mut copy: Vec<Json> = Vec::new();
                let mut i: usize = 0;
                while i < items.len()
                    invariant
                        i <= items.len(),
                        copy.len() == i,
                        *self is Array,
                        self->Array_0 == *items,
                        forall|k: int| 0 <= k < i ==> copy[k]@ == items[k]@,
                    decreases items.len() - i,
                {
                    assert(decreases_to!(self => self->Array_0));
                    assert(decreases_to!(self->Array_0 => self->Array_0[i as int]));
                    copy.push(items[i].clone());
                    i += 1;
                }
                let r = Json::Array(copy);
                assert(r@->Array_0 =~= self@->Array_0);
                r
            },
            Json::Object(members) => {
                let mut copy: Vec<(String, Json)> = Vec::new();
                let mut i: usize = 0;
                while i < members.len()
                    invariant
                        i <= members.len(),
                        copy.len() == i,
                        *self is Object,
                        self->Object_0 == *members,
                        forall|k: int|
                            0 <= k < i ==> copy[k].0@ == members[k].0@ && copy[k].1@
                                == members[k].1@,
                    decreases members.len() - i,
                {
                    assert(decreases_to!(self => self->Object_0));
                    assert(decreases_to!(self->Object_0 => self->Object_0[i as int]));
                    assert(decreases_to!(self->Object_0[i as int] => self->Object_0[i as int].1));
                    copy.push((members[i].0.clone(), members[i].1.clone()));
                    i += 1;
                }
                let r = Json::Object(copy);
                assert(r@->Object_0 =~= self@->Object_0);
                r
            },
        }
    }
}

/// The first member named `key` in a list of members.
pub open spec fn find_member(members: Seq<(Seq<char>, JsonValue)>, key: Seq<char>) -> Option<
    JsonValue,
>
    decreases members.len(),
{
    if members.len() == 0 {
        None
    } else if members[0].0 == key {
        Some(members[0].1)
    } else {
        find_member(members.drop_first(), key)
    }
}

impl JsonValue {
    /// The member named `key`, where this is an object that has one.
    pub open spec fn member(self, key: Seq<char>) -> Option<JsonValue> {
        match self {
            JsonValue::Object(members) => find_member(members, key),
            _ => None,
        }
    }

    /// The text, where this is a string.
    pub open spec fn text(self) -> Option<Seq<char>> {
        match self {
            JsonValue::String(s) => Some(s),
            _ => None,
        }
    }

    /// The truth value, where this is one.
    pub open spec fn flag(self) -> Option<bool> {
        match self {
            JsonValue::Bool(b) => Some(b),
            _ => None,
        }
    }

    /// The number, where this is a non-negative integer below 65536.
    pub open spec fn small(self) -> Option<u16> {
        match self {
            JsonValue::Number(NumberValue::Unsigned(n)) if n <= u16::MAX => Some(n as u16),
            _ => None,
        }
    }

    /// The elements, where this is an array.
    pub open spec fn items(self) -> Option<Seq<JsonValue>> {
        match self {
            JsonValue::Array(items) => Some(items),
            _ => None,
        }
    }
}

/// The view of an array is the sequence of the views of its elements.
pub proof fn lemma_array_view(items: Vec<Json>)
    ensures
        Json::Array(items)@ == JsonValue::Array(items.deep_view()),
{
    reveal_with_fuel(<Json as DeepView>::deep_view, 2);
    assert(Json::Array(items)@->Array_0 =~= items.deep_view());
}

/// The view of an object is the sequence of its members' names and views.
pub proof fn lemma_object_view(members: Vec<(String, Json)>)
    ensures
        Json::Object(members)@ == JsonValue::Object(members.deep_view()),
{
    reveal_with_fuel(<Json as DeepView>::deep_view, 2);
    assert(Json::Object(members)@->Object_0 =~= members.deep_view());
}

impl Json {
    /// The member named `key`, where this is an object that has one.
    pub fn get(&self, key: &str) -> (r: Option<&Json>)
        ensures
            match r {
                Some(found) => self@.member(key@) == Some(found@),
                None => self@.member(key@) is None,
            },
    {
        match self {
            Json::Object(members) => {
                let wanted = key.to_owned();
                let ghost all = self@->Object_0;
                proof {
                    lemma_object_view(*members);
                    assert(all.skip(0) =~= all);
                }
                let mut i: usize = 0;
                while i < members.len()
                    invariant
                        i <= members.len(),
                        wanted@ == key@,
                        all.len() == members.len(),
                        forall|k: int|
                            0 <= k < members.len() ==> #[trigger] all[k] == (
                                members[k].0@,
                                members[k].1@,
                            ),
                        find_member(all, key@) == find_member(all.skip(i as int), key@),
                        self@.member(key@) == find_member(all, key@),
                    decreases members.len() - i,
                {
                    proof {
                        let rest = all.skip(i as int);
                        assert(rest[0] == all[i as int]);
                        assert(rest.drop_first() =~= all.skip(i + 1));
                    }
                    if members[i].0 == wanted {
                        return Some(&members[i].1);
                    }
                    i += 1;
                }
                None
            },
            _ => None,
        }
    }

    /// The text, where this is a string.
    pub fn as_str(&self) -> (r: Option<&String>)
        ensures
            r.deep_view() == self@.text(),
    {
        match self {
            Json::String(s) => Some(s),
            _ => None,
        }
    }

    /// The truth value, where this is one.
    pub fn as_bool(&self) -> (r: Option<bool>)
        ensures
            r == self@.flag(),
    {
        match self {
            Json::Bool(b) => Some(*b),
            _ => None,
        }
    }

    /// The number, where this is a non-negative integer below 65536.
    pub fn as_u16(&self) -> (r: Option<u16>)
        ensures
            r == self@.small(),
    {
        match self {
            Json::Number(JsonNumber::Unsigned(n)) => {
                if *n <= 65535 {
                    Some(*n as u16)
                } else {
                    None
                }
            },
            _ => None,
        }
    }

    /// The elements, where this is an array.
    pub fn as_array(&self) -> (r: Option<&Vec<Json>>)
        ensures
            r.deep_view() == self@.items(),
    {
        match self {
            Json::Array(items) => {
                proof {
                    lemma_array_view(*items);
                }
                Some(items)
            },
            _ => None,
        }
    }

    /// Whether this is an object.
    pub fn is_object(&self) -> (r: bool)
        ensures
            r == (self@ is Object),
    {
        match self {
            Json::Object(_) => true,
            _ => false,
        }
    }

    /// Whether this is `null`.
    pub fn is_null(&self) -> (r: bool)
        ensures
            r == (self@ is Null),
    {
        match self {
            Json::Null => true,
            _ => false,
        }
    }
}

#[verifier::external_type_specification]
#[verifier::external_body]
pub struct ExValue(Value);

/// What `serde_json::from_str` makes of a text: the document that it
/// reads, or the text of its error where it reads none because the text is
/// no JSON or more follows the document.
pub uninterp spec fn json_document(text: Seq<char>) -> Result<JsonValue, Seq<char>>;

/// What a value of `serde_json` holds: its variant and, member by member,
/// what is in it.
pub uninterp spec fn value_tree(value: Value) -> JsonValue;

/// `serde_json::from_str`, read as a `Value`; an error by its text.
#[verifier::external_body]
fn read_value(text: &str) -> (r: Result<Value, String>)
    ensures
        match r {
            Ok(value) => json_document(text@) == Ok::<JsonValue, Seq<char>>(value_tree(value)),
            Err(message) => json_document(text@) == Err::<JsonValue, Seq<char>>(message@),
        },
{
    serde_json::from_str::<Value>(text).map_err(|e| e.to_string())
}

#[verifier::external_type_specification]
#[verifier::external_body]
pub struct ExNumber(serde_json::Number);

/// What a number of `serde_json` holds: what `as_u64` gives where it gives
/// something, else what `as_i64` gives where it gives something, else the
/// number's text.
pub uninterp spec fn number_value(number: serde_json::Number) -> NumberValue;

/// `Number::as_u64`, `Number::as_i64` and `Number::to_string`, the first
/// of them that applies.
#[verifier::external_body]
fn number_of(number: &serde_json::Number) -> (r: JsonNumber)
    ensures
        r@ == number_value(*number),
{
    match (number.as_u64(), number.as_i64()) {
        (Some(u), _) => JsonNumber::Unsigned(u),
        (_, Some(i)) => JsonNumber::Negative(i),
        _ => JsonNumber::Real(number.to_string()),
    }
}

/// One level of a `serde_json::Value`: its variant, with what the variant
/// holds left as it is.
enum Node<'a> {
    Null,
    Bool(bool),
    Number(&'a serde_json::Number),
    String(&'a String),
    Array(Vec<&'a Value>),
    Object(Vec<(&'a String, &'a Value)>),
}

impl<'a> Node<'a> {
    /// The document that the level stands for.
    spec fn tree(self) -> JsonValue {
        match self {
            Node::Null => JsonValue::Null,
            Node::Bool(b) => JsonValue::Bool(b),
            Node::Number(n) => JsonValue::Number(number_value(*n)),
            Node::String(s) => JsonValue::String(s@),
            Node::Array(items) => JsonValue::Array(
                Seq::new(items.len() as nat, |i: int| value_tree(*items[i])),
            ),
            Node::Object(members) => JsonValue::Object(
                Seq::new(members.len() as nat, |i: int| (members[i].0@, value_tree(*members[i].1))),
            ),
        }
    }
}

/// Tells the variants of a `serde_json::Value` apart. The elements of an
/// array come in their order, the members of an object in the order in
/// which its map yields them.
#[verifier::external_body]
fn unpack<'a>(value: &'a Value) -> (r: Node<'a>)
    ensures
        r.tree() == value_tree(*value),
{
    match value {
        Value::Null => Node::Null,
        Value::Bool(b) => Node::Bool(*b),
        Value::Number(n) => Node::Number(n),
        Value::String(s) => Node::String(s),
        Value::Array(a) => Node::Array(a.iter().collect()),
        Value::Object(m) => Node::Object(m.iter().collect()),
    }
}

/// Copies a `serde_json::Value` into a [`Json`], level by level.
fn from_value(value: &Value) -> (r: Json)
    ensures
        r@ == value_tree(*value),
    decreases value_tree(*value),
{
    match unpack(value) {
        Node::Null => Json::Null,
        Node::Bool(b) => Json::Bool(b),
        Node::Number(n) => Json::Number(number_of(n)),
        Node::String(s) => Json::String(s.clone()),
        Node::Array(items) => {
            let ghost tree = value_tree(*value);
            let mut copy: Vec<Json> = Vec::new();
            let mut i: usize = 0;
            while i < items.len()
                invariant
                    i <= items.len(),
                    copy.len() == i,
                    tree == value_tree(*value),
                    tree is Array,
                    tree->Array_0.len() == items.len(),
                    forall|k: int| 0 <= k < items.len() ==> tree->Array_0[k] == value_tree(*items[k]),
                    forall|k: int| 0 <= k < i ==> copy[k]@ == value_tree(*items[k]),
                decreases items.len() - i,
            {
                assert(decreases_to!(tree => tree->Array_0));
                assert(decreases_to!(tree->Array_0 => tree->Array_0[i as int]));
                copy.push(from_value(items[i]));
                i += 1;
            }
            proof {
                lemma_array_view(copy);
                assert(copy.deep_view() =~= tree->Array_0);
            }
            Json::Array(copy)
        },
        Node::Object(members) => {
            let ghost tree = value_tree(*value);
            let mut copy: Vec<(String, Json)> = Vec::new();
            let mut i: usize = 0;
            while i < members.len()
                invariant
                    i <= members.len(),
                    copy.len() == i,
                    tree == value_tree(*value),
                    tree is Object,
                    tree->Object_0.len() == members.len(),
                    forall|k: int|
                        0 <= k < members.len() ==> tree->Object_0[k] == (
                            members[k].0@,
                            value_tree(*members[k].1),
                        ),
                    forall|k: int|
                        0 <= k < i ==> copy[k].0@ == members[k].0@ && copy[k].1@ == value_tree(
                            *members[k].1,
                        ),
                decreases members.len() - i,
            {
                assert(decreases_to!(tree => tree->Object_0));
                assert(decreases_to!(tree->Object_0 => tree->Object_0[i as int]));
                assert(decreases_to!(tree->Object_0[i as int] => tree->Object_0[i as int].1));
                copy.push((members[i].0.clone(), from_value(members[i].1)));
                i += 1;
            }
            proof {
                lemma_object_view(copy);
                assert(copy.deep_view() =~= tree->Object_0);
            }
            Json::Object(copy)
        },
    }
}

/// What stands next in a run of documents.
#[derive(Debug, PartialEq, Eq)]
pub enum StreamItem {
    /// Nothing but white space is left.
    End,
    /// A document, and the number of bytes up to its end.
    Document(Json, usize),
    /// No document can be read; the message says why.
    Invalid(String),
}

/// The mathematical value of a [`StreamItem`].
pub ghost enum StreamItemView {
    End,
    Document(JsonValue, nat),
    Invalid(Seq<char>),
}

impl DeepView for StreamItem {
    type V = StreamItemView;

    open spec fn deep_view(&self) -> StreamItemView {
        match self {
            StreamItem::End => StreamItemView::End,
            StreamItem::Document(json, used) => StreamItemView::Document(json@, *used as nat),
            StreamItem::Invalid(message) => StreamItemView::Invalid(message@),
        }
    }
}

impl View for StreamItem {
    type V = StreamItemView;

    open spec fn view(&self) -> StreamItemView {
        self.deep_view()
    }
}

/// What the first `next` of a `serde_json::StreamDeserializer` yields on
/// the bytes of `input` from `from` on: the end, the first document with
/// the `byte_offset` behind it, or the text of the error.
pub uninterp spec fn stream_item(input: Seq<u8>, from: int) -> StreamItemView;

/// `StreamDeserializer::next` and `byte_offset`, on the bytes from `from`
/// on. The offset never leaves the input, and a document that was read
/// spans at least one byte.
#[verifier::external_body]
fn read_value_at(input: &[u8], from: usize) -> (r: (Option<Result<Value, String>>, usize))
    requires
        from <= input.len(),
    ensures
        r.1 <= input.len() - from,
        match r.0 {
            None => stream_item(input@, from as int) is End,
            Some(Ok(value)) => r.1 > 0 && stream_item(input@, from as int)
                == StreamItemView::Document(value_tree(value), r.1 as nat),
            Some(Err(message)) => stream_item(input@, from as int) == StreamItemView::Invalid(
                message@,
            ),
        },
{
    let mut stream = serde_json::Deserializer::from_slice(&input[from..]).into_iter::<Value>();
    let item = stream.next().map(|read| read.map_err(|e| e.to_string()));
    (item, stream.byte_offset())
}

impl Json {
    /// Reads one document from a text; where the text is none, says why.
    pub fn parse(text: &str) -> (r: Result<Json, String>)
        ensures
            match r {
                Ok(json) => json_document(text@) == Ok::<JsonValue, Seq<char>>(json@),
                Err(message) => json_document(text@) == Err::<JsonValue, Seq<char>>(message@),
            },
    {
        match read_value(text) {
            Ok(value) => Ok(from_value(&value)),
            Err(message) => Err(message),
        }
    }

    /// Reads the document that stands next in `input` from `from` on.
    pub fn parse_at(input: &[u8], from: usize) -> (r: StreamItem)
        requires
            from <= input.len(),
        ensures
            r@ == stream_item(input@, from as int),
            r matches StreamItem::Document(_, used) ==> 0 < used <= input.len() - from,
    {
        let (item, used) = read_value_at(input, from);
        match item {
            None => StreamItem::End,
            Some(Ok(value)) => StreamItem::Document(from_value(&value), used),
            Some(Err(message)) => StreamItem::Invalid(message),
        }
    }
}

} // verus!
