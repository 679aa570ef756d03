//! JSON documents. Reading them is `serde_json`'s work: this module declares
//! its value type, says what such a value holds as far as the library looks
//! into it, and takes what the parser and the accessors do on trust.

use vstd::prelude::*;

verus! {

/// `serde_json::Value`, a JSON value. Nothing of its inside is known but what
/// [`json_tree`] names.
#[verifier::external_type_specification]
#[verifier::external_body]
pub struct ExJsonValue(serde_json::Value);

/// What a JSON value holds.
pub enum JsonTree {
    Null,
    Flag(bool),
    /// A number. What it holds is known only where it is an integer from 0 to
    /// 2^64 - 1 that `serde_json` keeps as such.
    Number(Option<u64>),
    Text(Seq<char>),
    List(Seq<JsonTree>),
    Object(Map<Seq<char>, JsonTree>),
}

/// What a `serde_json::Value` holds.
pub uninterp spec fn json_tree(value: serde_json::Value) -> JsonTree;

/// What `serde_json::from_str::<serde_json::Value>` makes of a text: what the
/// value holds that it returns, or the message of its error.
pub uninterp spec fn json_parse(text: Seq<char>) -> Result<JsonTree, Seq<char>>;

/// The member of an object under a key; nothing for a missing key and for
/// what is no object.
pub open spec fn member_of(tree: JsonTree, key: Seq<char>) -> Option<JsonTree> {
    match tree {
        JsonTree::Object(members) => if members.contains_key(key) {
            Some(members[key])
        } else {
            None
        },
        _ => None,
    }
}

/// The element of a list at an index; nothing for an index out of bounds and
/// for what is no list.
pub open spec fn element_of(tree: JsonTree, index: int) -> Option<JsonTree> {
    match tree {
        JsonTree::List(elements) => if 0 <= index < elements.len() {
            Some(elements[index])
        } else {
            None
        },
        _ => None,
    }
}

/// The text that a value is, if it is one.
pub open spec fn text_in(tree: JsonTree) -> Option<Seq<char>> {
    match tree {
        JsonTree::Text(text) => Some(text),
        _ => None,
    }
}

/// The boolean that a value is, if it is one.
pub open spec fn flag_in(tree: JsonTree) -> Option<bool> {
    match tree {
        JsonTree::Flag(flag) => Some(flag),
        _ => None,
    }
}

/// The integer from 0 to 2^64 - 1 that a value is, if it is one.
pub open spec fn count_in(tree: JsonTree) -> Option<u64> {
    match tree {
        JsonTree::Number(count) => count,
        _ => None,
    }
}

/// `serde_json::from_str::<serde_json::Value>`, with `to_string` on its
/// error. The outcome depends on the text alone, and it is the one that
/// [`json_parse`] names.
#[verifier::external_body]
pub(crate) fn parse(text: &str) -> (r: Result<serde_json::Value, String>)
    ensures
        match r {
            Ok(value) => json_parse(text@) == Ok::<JsonTree, Seq<char>>(json_tree(value)),
            Err(cause) => json_parse(text@) == Err::<JsonTree, Seq<char>>(cause@),
        },
{
    serde_json::from_str::<serde_json::Value>(text).map_err(|e| e.to_string())
}

/// `serde_json::Value::get` with a key: the member of an object under the
/// key, nothing where the key is missing or the value is no object.
#[verifier::external_body]
pub(crate) fn member<'a>(value: &'a serde_json::Value, key: &str) -> (r: Option<
    &'a serde_json::Value,
>)
    ensures
        match r {
            Some(found) => member_of(json_tree(*value), key@) == Some(json_tree(*found)),
            None => member_of(json_tree(*value), key@) is None,
        },
{
    value.get(key)
}

/// `serde_json::Value::get` with an index: the element of an array at the
/// index, nothing where the index is out of bounds or the value is no array.
#[verifier::external_body]
pub(crate) fn element<'a>(value: &'a serde_json::Value, index: usize) -> (r: Option<
    &'a serde_json::Value,
>)
    ensures
        match r {
            Some(found) => element_of(json_tree(*value), index as int) == Some(json_tree(*found)),
            None => element_of(json_tree(*value), index as int) is None,
        },
{
    value.get(index)
}

/// `serde_json::Value::as_str`, copied into a `String`: the text that the
/// value is, nothing where it is no string.
#[verifier::external_body]
pub(crate) fn as_text(value: &serde_json::Value) -> (r: Option<String>)
    ensures
        match r {
            Some(text) => text_in(json_tree(*value)) == Some(text@),
            None => text_in(json_tree(*value)) is None,
        },
{
    value.as_str().map(|s| s.to_owned())
}

/// `serde_json::Value::as_bool`: the boolean that the value is, nothing
/// where it is none.
#[verifier::external_body]
pub(crate) fn as_flag(value: &serde_json::Value) -> (r: Option<bool>)
    ensures
        r == flag_in(json_tree(*value)),
{
    value.as_bool()
}

/// `serde_json::Value::as_u64`: the number that the value is where it is an
/// integer from 0 to 2^64 - 1, nothing else.
#[verifier::external_body]
pub(crate) fn as_count(value: &serde_json::Value) -> (r: Option<u64>)
    ensures
        r == count_in(json_tree(*value)),
{
    value.as_u64()
}

/// The text under a key of an object.
pub open spec fn text_member(tree: JsonTree, key: Seq<char>) -> Option<Seq<char>> {
    match member_of(tree, key) {
        Some(found) => text_in(found),
        None => None,
    }
}

/// The boolean under a key of an object.
pub open spec fn flag_member(tree: JsonTree, key: Seq<char>) -> Option<bool> {
    match member_of(tree, key) {
        Some(found) => flag_in(found),
        None => None,
    }
}

/// The integer under a key of an object.
pub open spec fn count_member(tree: JsonTree, key: Seq<char>) -> Option<u64> {
    match member_of(tree, key) {
        Some(found) => count_in(found),
        None => None,
    }
}

/// Reads the text under a key of an object.
pub(crate) fn get_text(value: &serde_json::Value, key: &str) -> (r: Option<String>)
    ensures
        crate::dto::text_view(r) == text_member(json_tree(*value), key@),
{
    match member(value, key) {
        Some(found) => as_text(found),
        None => None,
    }
}

/// Reads the boolean under a key of an object.
pub(crate) fn get_flag(value: &serde_json::Value, key: &str) -> (r: Option<bool>)
    ensures
        r == flag_member(json_tree(*value), key@),
{
    match member(value, key) {
        Some(found) => as_flag(found),
        None => None,
    }
}

/// Reads the integer under a key of an object.
pub(crate) fn get_count(value: &serde_json::Value, key: &str) -> (r: Option<u64>)
    ensures
        r == count_member(json_tree(*value), key@),
{
    match member(value, key) {
        Some(found) => as_count(found),
        None => None,
    }
}

} // verus!
