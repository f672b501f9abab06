//! JSON documents, as `serde_json` holds them.
//!
//! A `serde_json::Value` is opaque to the verifier. Its content is named by
//! [`json_view`], a tree of mathematical values, and the few operations that
//! the crate needs are given contracts over that tree. Those contracts are
//! stated without proof; everything built on them is verified.

use vstd::prelude::*;

verus! {

/// The content of a JSON document.
///
/// Numbers are not distinguished from one another: nothing in this crate
/// reads one.
pub enum JsonView {
    Null,
    Bool(bool),
    Number,
    Text(Seq<char>),
    Array(Seq<JsonView>),
    Object(Map<Seq<char>, JsonView>),
}

impl JsonView {
    /// The member stored under `key`, or `Null` where `self` is no object or
    /// has no such member.
    pub open spec fn member(self, key: Seq<char>) -> JsonView {
        match self {
            JsonView::Object(members) => if members.contains_key(key) {
                members[key]
            } else {
                JsonView::Null
            },
            _ => JsonView::Null,
        }
    }

    /// The element at `index`, or `Null` where `self` is no array or is too
    /// short.
    pub open spec fn element(self, index: int) -> JsonView {
        match self {
            JsonView::Array(elements) => if 0 <= index < elements.len() {
                elements[index]
            } else {
                JsonView::Null
            },
            _ => JsonView::Null,
        }
    }

    /// The characters of a string value; `None` for every other value.
    pub open spec fn text(self) -> Option<Seq<char>> {
        match self {
            JsonView::Text(characters) => Some(characters),
            _ => None,
        }
    }
}

/// The members of an object made from `fields`: each key, with what the value
/// beside it holds. Meant for fields whose keys differ from one another.
pub open spec fn members_of(fields: Seq<(String, serde_json::Value)>) -> Map<Seq<char>, JsonView> {
    Map::new(
        |key: Seq<char>| exists|i: int| 0 <= i < fields.len() && (#[trigger] fields[i]).0@ == key,
        |key: Seq<char>|
            json_view(
                fields[choose|i: int| 0 <= i < fields.len() && (#[trigger] fields[i]).0@ == key].1,
            ),
    )
}

/// No two of `fields` have the same key.
pub open spec fn distinct_keys(fields: Seq<(String, serde_json::Value)>) -> bool {
    forall|i: int, j: int|
        0 <= i < j < fields.len() ==> (#[trigger] fields[i]).0@ != (#[trigger] fields[j]).0@
}

/// Declares `serde_json::Value`, a JSON document in memory. Nothing is said
/// of what is inside: [`json_view`] names it.
#[verifier::external_type_specification]
#[verifier::external_body]
pub struct ExValue(serde_json::Value);

/// Declares `serde_json::Error`, which the parser and the serializers
/// report. It is only ever passed on.
#[verifier::external_type_specification]
#[verifier::external_body]
pub struct ExError(serde_json::Error);

/// What a `serde_json::Value` holds.
pub uninterp spec fn json_view(value: serde_json::Value) -> JsonView;

/// What `serde_json::from_str` makes of a text: the document it describes, or
/// `None` where the text is rejected.
pub uninterp spec fn json_parsed(text: Seq<char>) -> Option<JsonView>;

/// What `serde_json::to_string` writes for a value: its compact JSON text, or
/// `None` where the serializer reports an error.
pub uninterp spec fn json_compact(value: serde_json::Value) -> Option<Seq<char>>;

/// What `serde_json::to_string_pretty` writes for a value: its indented JSON
/// text, or `None` where the serializer reports an error.
pub uninterp spec fn json_pretty(value: serde_json::Value) -> Option<Seq<char>>;

/// Wraps `serde_json::from_str` at type `Value`. The contract only names the
/// outcome: acceptance and the resulting document are those of
/// [`json_parsed`] on the same text.
#[verifier::external_body]
pub(crate) fn parse(text: &str) -> (outcome: Result<serde_json::Value, serde_json::Error>)
    ensures
        match outcome {
            Ok(document) => json_parsed(text@) == Some(json_view(document)),
            Err(_) => json_parsed(text@) is None,
        },
{
    serde_json::from_str::<serde_json::Value>(text)
}

/// Wraps `Value`'s index operator for a string key, which yields the member
/// of an object and a `Null` value in every other case.
#[verifier::external_body]
pub(crate) fn member<'a>(value: &'a serde_json::Value, key: &str) -> (found: &'a serde_json::Value)
    ensures
        json_view(*found) == json_view(*value).member(key@),
{
    &value[key]
}

/// Wraps `Value`'s index operator for a position, which yields the element of
/// an array and a `Null` value in every other case.
#[verifier::external_body]
pub(crate) fn element<'a>(value: &'a serde_json::Value, index: usize) -> (found: &'a serde_json::Value)
    ensures
        json_view(*found) == json_view(*value).element(index as int),
{
    &value[index]
}

/// Wraps `Value::as_str`, which yields the characters of a string value and
/// `None` for every other value.
#[verifier::external_body]
pub(crate) fn as_text<'a>(value: &'a serde_json::Value) -> (found: Option<&'a str>)
    ensures
        match found {
            Some(characters) => json_view(*value).text() == Some(characters@),
            None => json_view(*value).text() is None,
        },
{
    value.as_str()
}

/// Wraps `Value::from` for a `String`, which makes the string value with
/// those characters.
#[verifier::external_body]
pub(crate) fn new_text(characters: String) -> (value: serde_json::Value)
    ensures
        json_view(value) == JsonView::Text(characters@),
{
    serde_json::Value::from(characters)
}

/// Wraps `Value::from` for a `Vec<Value>`, which makes the array of those
/// elements in their order.
#[verifier::external_body]
pub(crate) fn new_array(elements: Vec<serde_json::Value>) -> (value: serde_json::Value)
    ensures
        json_view(value) == JsonView::Array(
            elements@.map_values(|element: serde_json::Value| json_view(element)),
        ),
{
    serde_json::Value::from(elements)
}

/// Wraps `Value::from_iter` for pairs of key and value, which makes the
/// object with those members. Equal keys are left out: the source does not
/// say which of their values would stay.
#[verifier::external_body]
pub(crate) fn new_object(fields: Vec<(String, serde_json::Value)>) -> (value: serde_json::Value)
    requires
        distinct_keys(fields@),
    ensures
        json_view(value) == JsonView::Object(members_of(fields@)),
{
    serde_json::Value::from_iter(fields)
}

/// Wraps `serde_json::to_string` at type `Value`. The contract only names the
/// text: it is that of [`json_compact`] on the same value.
#[verifier::external_body]
pub(crate) fn encode(value: &serde_json::Value) -> (outcome: Result<String, serde_json::Error>)
    ensures
        match outcome {
            Ok(text) => json_compact(*value) == Some(text@),
            Err(_) => json_compact(*value) is None,
        },
{
    serde_json::to_string(value)
}

/// Wraps `serde_json::to_string_pretty` at type `Value`. The contract only
/// names the text: it is that of [`json_pretty`] on the same value.
#[verifier::external_body]
pub(crate) fn encode_pretty(value: &serde_json::Value) -> (outcome: Result<String, serde_json::Error>)
    ensures
        match outcome {
            Ok(text) => json_pretty(*value) == Some(text@),
            Err(_) => json_pretty(*value) is None,
        },
{
    serde_json::to_string_pretty(value)
}

} // verus!
