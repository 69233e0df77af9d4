//! JSON values: `serde_json::Value` and what it holds.

use vstd::prelude::*;

use crate::text::is_line;

verus! {

/// The JSON value type of `serde_json`, carried opaquely. What a value holds is
/// named by [`json_contents`].
#[verifier::external_type_specification]
#[verifier::external_body]
pub struct ExValue(serde_json::Value);

/// A JSON number: an integer in the range of `i64` or `u64`, or any other number,
/// told apart by the bits of its binary representation.
pub enum NumberView {
    Integer(int),
    Other(int),
}

/// What a JSON value holds.
#[verifier::ext_equal]
pub enum JsonView {
    Null,
    Bool(bool),
    Number(NumberView),
    Text(Seq<char>),
    Array(Seq<JsonView>),
    Object(Map<Seq<char>, JsonView>),
}

/// The contents of a `serde_json::Value`.
pub uninterp spec fn json_contents(value: serde_json::Value) -> JsonView;

/// What `serde_json::from_str` reads out of a text: the contents of the value, or
/// the message of the error.
pub uninterp spec fn json_parse(text: Seq<char>) -> Result<JsonView, Seq<char>>;

/// The text that `serde_json::to_string` writes for a value with these contents. An object's
/// fields are kept and written in the order of their keys, so that it depends on no more.
pub uninterp spec fn json_text(contents: JsonView) -> Seq<char>;

/// Whether a value nests at most `depth` arrays and objects, and each of its numbers
/// is an integer that `i64` or `u64` can hold.
pub open spec fn json_plain(contents: JsonView, depth: nat) -> bool
    decreases depth,
{
    match contents {
        JsonView::Null => true,
        JsonView::Bool(_) => true,
        JsonView::Number(number) => number matches NumberView::Integer(n) && i64::MIN <= n
            <= u64::MAX,
        JsonView::Text(_) => true,
        JsonView::Array(items) => depth > 0 && forall|i: int|
            0 <= i < items.len() ==> json_plain(#[trigger] items[i], (depth - 1) as nat),
        JsonView::Object(fields) => depth > 0 && forall|key: Seq<char>| #[trigger]
            fields.contains_key(key) ==> json_plain(fields[key], (depth - 1) as nat),
    }
}

/// Whether `serde_json::from_str` reads a value with these contents out of the text.
pub open spec fn reads_as(text: Seq<char>, contents: JsonView) -> bool {
    json_parse(text) == Ok::<JsonView, Seq<char>>(contents)
}

/// The contents of a list of values, one by one.
pub open spec fn contents_seq(values: Seq<serde_json::Value>) -> Seq<JsonView> {
    Seq::new(values.len(), |i: int| json_contents(values[i]))
}

/// The field of an object, if `contents` is an object that has it.
pub open spec fn json_field(contents: JsonView, key: Seq<char>) -> Option<JsonView> {
    match contents {
        JsonView::Object(fields) => if fields.contains_key(key) {
            Some(fields[key])
        } else {
            None
        },
        _ => None,
    }
}

/// The text that a field holds, if there is such a field and it holds a text.
pub open spec fn json_text_field(contents: JsonView, key: Seq<char>) -> Option<Seq<char>> {
    match json_field(contents, key) {
        Some(JsonView::Text(text)) => Some(text),
        _ => None,
    }
}

/// The number of a value that is an integer within `i64`.
pub open spec fn json_i64(contents: JsonView) -> Option<int> {
    match contents {
        JsonView::Number(NumberView::Integer(n)) => if i64::MIN <= n <= i64::MAX {
            Some(n)
        } else {
            None
        },
        _ => None,
    }
}

/// `serde_json::from_str`, read as a `Value`; an error is handed on as its message.
/// Claimed: the outcome is the one named by [`json_parse`] for the text.
#[verifier::external_body]
pub(crate) fn parse_json(text: &str) -> (parsed: Result<serde_json::Value, String>)
    ensures
        match parsed {
            Ok(value) => reads_as(text@, json_contents(value)),
            Err(message) => json_parse(text@) matches Err(said) && said == message@,
        },
{
    serde_json::from_str(text).map_err(|e: serde_json::Error| e.to_string())
}

/// `serde_json::to_string` on a `Value`, which cannot fail: every key is a string and
/// the text is written into memory. Claimed: the text is the one named by [`json_text`]
/// for the contents; it stays on one line, for the compact form puts no space between
/// tokens and escapes line breaks and their like inside strings; and
/// `serde_json::from_str` reads the same contents back out of it, as long as the numbers
/// are integers and the nesting stays within the 127 levels that the reader follows.
#[verifier::external_body]
pub(crate) fn json_to_string(value: &serde_json::Value) -> (text: String)
    ensures
        text@ == json_text(json_contents(*value)),
        is_line(text@),
        json_plain(json_contents(*value), 127) ==> reads_as(text@, json_contents(*value)),
{
    serde_json::to_string(value).unwrap()
}

/// `serde_json::Value::get` with a string key. Claimed: the field of that name where the
/// value is an object that has one, and nothing otherwise.
#[verifier::external_body]
pub(crate) fn json_get<'a>(value: &'a serde_json::Value, key: &str) -> (field: Option<
    &'a serde_json::Value,
>)
    ensures
        match field {
            Some(found) => json_field(json_contents(*value), key@) == Some(json_contents(*found)),
            None => json_field(json_contents(*value), key@) is None,
        },
{
    value.get(key)
}

/// `serde_json::Value::as_str`. Claimed: the text of a string value, and nothing for any
/// other value.
#[verifier::external_body]
pub(crate) fn json_as_str(value: &serde_json::Value) -> (text: Option<&str>)
    ensures
        match text {
            Some(found) => json_contents(*value) == JsonView::Text(found@),
            None => !(json_contents(*value) is Text),
        },
{
    value.as_str()
}

/// `serde_json::Value::as_bool`. Claimed: the truth value of a boolean, and nothing for any
/// other value.
#[verifier::external_body]
pub(crate) fn json_as_bool(value: &serde_json::Value) -> (flag: Option<bool>)
    ensures
        match flag {
            Some(found) => json_contents(*value) == JsonView::Bool(found),
            None => !(json_contents(*value) is Bool),
        },
{
    value.as_bool()
}

/// `serde_json::Value::as_i64`. Claimed: the number of a value that is an integer within
/// `i64`, and nothing for any other value.
#[verifier::external_body]
pub(crate) fn json_as_i64(value: &serde_json::Value) -> (number: Option<i64>)
    ensures
        match number {
            Some(n) => json_i64(json_contents(*value)) == Some(n as int),
            None => json_i64(json_contents(*value)) is None,
        },
{
    value.as_i64()
}

/// `serde_json::Value::as_array`. Claimed: the items of an array, in order, and nothing for
/// any other value.
#[verifier::external_body]
pub(crate) fn json_as_array(value: &serde_json::Value) -> (items: Option<&Vec<serde_json::Value>>)
    ensures
        match items {
            Some(found) => json_contents(*value) == JsonView::Array(contents_seq(found@)),
            None => !(json_contents(*value) is Array),
        },
{
    value.as_array()
}

/// `serde_json::Value::clone`. Claimed: the copy has the same contents.
#[verifier::external_body]
pub(crate) fn json_clone(value: &serde_json::Value) -> (copy: serde_json::Value)
    ensures
        json_contents(copy) == json_contents(*value),
{
    value.clone()
}

/// The variant `serde_json::Value::Null`.
#[verifier::external_body]
pub(crate) fn json_null() -> (value: serde_json::Value)
    ensures
        json_contents(value) == JsonView::Null,
{
    serde_json::Value::Null
}

/// The variant `serde_json::Value::Bool`, holding `flag`.
#[verifier::external_body]
pub(crate) fn json_bool(flag: bool) -> (value: serde_json::Value)
    ensures
        json_contents(value) == JsonView::Bool(flag),
{
    serde_json::Value::Bool(flag)
}

/// `serde_json::Value::from` on a `u64`. Claimed: the value is that integer.
#[verifier::external_body]
pub(crate) fn json_u64(number: u64) -> (value: serde_json::Value)
    ensures
        json_contents(value) == JsonView::Number(NumberView::Integer(number as int)),
{
    serde_json::Value::from(number)
}

/// The variant `serde_json::Value::String`, holding `text`.
#[verifier::external_body]
pub(crate) fn json_string(text: String) -> (value: serde_json::Value)
    ensures
        json_contents(value) == JsonView::Text(text@),
{
    serde_json::Value::String(text)
}

/// The variant `serde_json::Value::Array`, holding `items`.
#[verifier::external_body]
pub(crate) fn json_array(items: Vec<serde_json::Value>) -> (value: serde_json::Value)
    ensures
        json_contents(value) == JsonView::Array(contents_seq(items@)),
{
    serde_json::Value::Array(items)
}

/// The variant `serde_json::Value::Object`, holding the empty map of `serde_json::Map::new`.
#[verifier::external_body]
pub(crate) fn json_object() -> (value: serde_json::Value)
    ensures
        json_contents(value) == JsonView::Object(Map::empty()),
{
    serde_json::Value::Object(serde_json::Map::new())
}

/// Assignment through `IndexMut` of `serde_json::Value` with a string key, which panics on
/// a value that is neither an object nor null. Claimed: the field of an object is set, one
/// that was there before is replaced, and the others stay.
#[verifier::external_body]
pub(crate) fn json_set(object: &mut serde_json::Value, key: &str, value: serde_json::Value)
    requires
        json_contents(*old(object)) is Object,
    ensures
        json_contents(*final(object)) == JsonView::Object(
            json_contents(*old(object))->Object_0.insert(key@, json_contents(value)),
        ),
{
    object[key] = value;
}

} // verus!
