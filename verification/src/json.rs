//! JSON documents.
//!
//! A document is a `serde_json::Value`, which the verified code carries and reads through
//! the items of this module. What a document holds is a [`Json`] tree.

use crate::text::option_text;
use vstd::prelude::*;

verus! {

/// What a JSON document holds.
///
/// A number is a natural number, a negative integer, or a fraction; a fraction is
/// identified by the bits of its binary representation.
pub enum Json {
    Null,
    Bool(bool),
    Natural(u64),
    Negative(i64),
    Fraction(u64),
    Text(Seq<char>),
    Array(Seq<Json>),
    Object(Map<Seq<char>, Json>),
}

/// `serde_json::Value`, a JSON document.
#[verifier::external_type_specification]
#[verifier::external_body]
pub struct ExValue(serde_json::Value);

/// `serde_json::Error`, the reason why a text is no JSON document.
#[verifier::external_type_specification]
#[verifier::external_body]
pub struct ExError(serde_json::Error);

/// What the document `v` holds.
pub uninterp spec fn tree(v: serde_json::Value) -> Json;

/// What `serde_json::from_str` reads in a text: the tree that it denotes, or `None` where
/// the text is no JSON document.
pub uninterp spec fn parsed(text: Seq<char>) -> Option<Json>;

/// The compact text that `serde_json` prints for a tree. Objects are kept in the order of
/// their keys, so that the text depends on their entries alone.
pub uninterp spec fn printed(json: Json) -> Seq<char>;

/// Calls `serde_json::from_str`, which reads a document from a text. Whether it succeeds,
/// and the document that it gives, are named by `parsed`.
#[verifier::external_body]
pub(crate) fn parse(text: &str) -> (r: Result<serde_json::Value, serde_json::Error>)
    ensures
        r is Ok <==> parsed(text@) is Some,
        r matches Ok(v) ==> parsed(text@) == Some(tree(v)),
{
    serde_json::from_str(text)
}

/// Calls `Value::to_string`, which prints a document as compact text, named by `printed`.
#[verifier::external_body]
pub(crate) fn print(v: &serde_json::Value) -> (r: String)
    ensures
        r@ == printed(tree(*v)),
{
    v.to_string()
}

/// The entry of an object under `key`. No other document has entries.
pub open spec fn entry(json: Json, key: Seq<char>) -> Option<Json> {
    match json {
        Json::Object(m) => if m.dom().contains(key) {
            Some(m[key])
        } else {
            None
        },
        _ => None,
    }
}

/// Calls `Value::get` with a text, which gives the entry of an object under that key, and
/// nothing where the document is no object or has no such entry.
#[verifier::external_body]
pub(crate) fn get<'a>(v: &'a serde_json::Value, key: &str) -> (r: Option<&'a serde_json::Value>)
    ensures
        r is Some <==> entry(tree(*v), key@) is Some,
        r matches Some(e) ==> entry(tree(*v), key@) == Some(tree(*e)),
{
    v.get(key)
}

/// `Value::as_str` gives the text of a JSON string, and nothing for any other document.
pub assume_specification[ serde_json::Value::as_str ](v: &serde_json::Value) -> (r: Option<&str>)
    ensures
        match tree(*v) {
            Json::Text(t) => r is Some && r->0@ == t,
            _ => r is None,
        },
;

/// `Value::as_u64` gives the value of a natural number, and nothing for any other document.
pub assume_specification[ serde_json::Value::as_u64 ](v: &serde_json::Value) -> (r: Option<u64>)
    ensures
        r == match tree(*v) {
            Json::Natural(n) => Some(n),
            _ => None,
        },
;

/// The text under `key` in an object.
pub open spec fn text_at(json: Json, key: Seq<char>) -> Option<Seq<char>> {
    match entry(json, key) {
        Some(Json::Text(t)) => Some(t),
        _ => None,
    }
}

/// The natural number under `key` in an object.
pub open spec fn natural_at(json: Json, key: Seq<char>) -> Option<u64> {
    match entry(json, key) {
        Some(Json::Natural(n)) => Some(n),
        _ => None,
    }
}

/// The text under `key` in a document.
pub fn text_field<'a>(v: &'a serde_json::Value, key: &str) -> (r: Option<&'a str>)
    ensures
        r is Some <==> text_at(tree(*v), key@) is Some,
        r matches Some(t) ==> text_at(tree(*v), key@) == Some(t@),
{
    match get(v, key) {
        Some(e) => e.as_str(),
        None => None,
    }
}

/// The text under `key` in a document, as a text of its own.
pub fn owned_field(v: &serde_json::Value, key: &str) -> (r: Option<String>)
    ensures
        option_text(r) == text_at(tree(*v), key@),
{
    match text_field(v, key) {
        Some(t) => Some(t.to_string()),
        None => None,
    }
}

/// The natural number under `key` in a document.
pub fn natural_field(v: &serde_json::Value, key: &str) -> (r: Option<u64>)
    ensures
        r == natural_at(tree(*v), key@),
{
    match get(v, key) {
        Some(e) => e.as_u64(),
        None => None,
    }
}

/// The trees of several documents.
pub open spec fn trees(vs: Seq<serde_json::Value>) -> Seq<Json> {
    vs.map_values(|v: serde_json::Value| tree(v))
}

/// `Value::as_array` gives the elements of a JSON array, in order, and nothing for any
/// other document.
pub assume_specification[ serde_json::Value::as_array ](v: &serde_json::Value) -> (r: Option<
    &Vec<serde_json::Value>,
>)
    ensures
        match tree(*v) {
            Json::Array(a) => r is Some && trees(r->0@) == a,
            _ => r is None,
        },
;

/// Calls `Value::from` with the unit, which makes the document `null`.
#[verifier::external_body]
pub(crate) fn null() -> (r: serde_json::Value)
    ensures
        tree(r) == Json::Null,
{
    serde_json::Value::from(())
}

/// Calls `Value::from` with a truth value, which makes the document for it.
#[verifier::external_body]
pub(crate) fn from_bool(b: bool) -> (r: serde_json::Value)
    ensures
        tree(r) == Json::Bool(b),
{
    serde_json::Value::from(b)
}

/// Calls `Value::from` with a text, which makes the JSON string of that text.
#[verifier::external_body]
pub(crate) fn from_text(s: &str) -> (r: serde_json::Value)
    ensures
        tree(r) == Json::Text(s@),
{
    serde_json::Value::from(s)
}

/// Calls `Value::from` with documents, which makes the JSON array of them, in order.
#[verifier::external_body]
pub(crate) fn from_elements(elements: Vec<serde_json::Value>) -> (r: serde_json::Value)
    ensures
        tree(r) == Json::Array(trees(elements@)),
{
    serde_json::Value::from(elements)
}

/// The entries of an object that is built from fields.
pub open spec fn entries(fields: Seq<(&'static str, serde_json::Value)>) -> Map<Seq<char>, Json>
    decreases fields.len(),
{
    if fields.len() == 0 {
        Map::empty()
    } else {
        entries(fields.drop_last()).insert(fields.last().0@, tree(fields.last().1))
    }
}

/// Calls `Value::from_iter` with keys and documents, which makes the JSON object with these
/// entries. No key may stand twice.
#[verifier::external_body]
pub(crate) fn from_fields(fields: Vec<(&'static str, serde_json::Value)>) -> (r: serde_json::Value)
    requires
        forall|i: int, j: int|
            0 <= i < j < fields@.len() ==> (#[trigger] fields@[i]).0@ != (#[trigger] fields@[j]).0@,
    ensures
        tree(r) == Json::Object(entries(fields@)),
{
    serde_json::Value::from_iter(fields)
}

/// An object has the entries that its map holds, and what is no object has none.
pub proof fn law_entries_are_read(m: Map<Seq<char>, Json>, key: Seq<char>)
    ensures
        m.dom().contains(key) ==> entry(Json::Object(m), key) == Some(m[key]),
        !m.dom().contains(key) ==> entry(Json::Object(m), key) is None,
        forall|json: Json| json !is Object ==> #[trigger] entry(json, key) is None,
{
}

/// A text or a natural number is read from an entry of that kind, and from no other.
pub proof fn law_fields_keep_their_kind(json: Json, key: Seq<char>)
    ensures
        forall|t: Seq<char>|
            #![auto]
            text_at(json, key) == Some(t) <==> entry(json, key) == Some(Json::Text(t)),
        forall|n: u64|
            #![auto]
            natural_at(json, key) == Some(n) <==> entry(json, key) == Some(Json::Natural(n)),
{
}

/// An object that is built from fields with different keys holds each of them, and no other.
pub proof fn law_fields_become_entries(fields: Seq<(&'static str, serde_json::Value)>)
    requires
        forall|i: int, j: int|
            0 <= i < j < fields.len() ==> (#[trigger] fields[i]).0@ != (#[trigger] fields[j]).0@,
    ensures
        forall|i: int|
            0 <= i < fields.len() ==> entries(fields).dom().contains((#[trigger] fields[i]).0@)
                && entries(fields)[fields[i].0@] == tree(fields[i].1),
        forall|key: Seq<char>| #[trigger]
            entries(fields).dom().contains(key) ==> exists|i: int|
                0 <= i < fields.len() && (#[trigger] fields[i]).0@ == key,
    decreases fields.len(),
{
    if fields.len() > 0 {
        let rest = fields.drop_last();
        assert forall|i: int, j: int| 0 <= i < j < rest.len() implies (#[trigger] rest[i]).0@ != (
        #[trigger] rest[j]).0@ by {
            assert(fields[i].0@ != fields[j].0@);
        }
        law_fields_become_entries(rest);
        let n = fields.len() - 1;
        assert forall|i: int| 0 <= i < fields.len() implies entries(fields).dom().contains(
            (#[trigger] fields[i]).0@,
        ) && entries(fields)[fields[i].0@] == tree(fields[i].1) by {
            if i < n {
                assert(rest[i] == fields[i]);
                assert(fields[i].0@ != fields[n].0@);
            }
        }
        assert forall|key: Seq<char>| #[trigger]
            entries(fields).dom().contains(key) implies exists|i: int|
            0 <= i < fields.len() && (#[trigger] fields[i]).0@ == key by {
            if key == fields[n].0@ {
            } else {
                assert(entries(rest).dom().contains(key));
                let i = choose|i: int| 0 <= i < rest.len() && (#[trigger] rest[i]).0@ == key;
                assert(fields[i].0@ == key);
            }
        }
    }
}

/// Every one of several documents has its tree in its place.
pub proof fn law_trees_are_in_order(vs: Seq<serde_json::Value>, i: int)
    requires
        0 <= i < vs.len(),
    ensures
        trees(vs).len() == vs.len(),
        trees(vs)[i] == tree(vs[i]),
{
}

} // verus!
