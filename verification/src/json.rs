//! What the relay reads from, and writes as, JSON documents.

use vstd::prelude::*;

verus! {

/// What a lookup in a JSON value finds.
#[derive(Debug, PartialEq, Eq)]
pub enum JsonField {
    /// Nothing: the value holds no such member.
    Missing,
    /// A string.
    Text(String),
    /// A value of another kind.
    Other,
}

/// A list of members: each a name and a string value.
pub type Members = Vec<(String, String)>;

/// The views of a list of members.
pub open spec fn members(v: Seq<(String, String)>) -> Seq<(Seq<char>, Seq<char>)> {
    Seq::new(v.len(), |i: int| (v[i].0@, v[i].1@))
}

/// The views of a list of named objects.
pub open spec fn objects(v: Seq<(String, Members)>) -> Seq<(Seq<char>, Seq<(Seq<char>, Seq<char>)>)> {
    Seq::new(v.len(), |i: int| (v[i].0@, members(v[i].1@)))
}

/// What the member `key` of the JSON document `text` is, as serde_json
/// reads it: `None` where `text` is no JSON document, `Missing` where the
/// document is no object or has no such member.
pub uninterp spec fn json_field_of(text: Seq<char>, key: Seq<char>) -> Option<JsonField>;

/// What stands at index `column` of each element of the array under the
/// member `key` of the JSON document `text`: `None` where `text` is no JSON
/// document, `Some(None)` where no array stands under `key`.
pub uninterp spec fn json_column_of(text: Seq<char>, key: Seq<char>, column: int) -> Option<
    Option<Seq<JsonField>>,
>;

/// The text that serde_json writes for the object with the string members
/// `fields` followed by the object members `nested`.
pub uninterp spec fn json_object_text(
    fields: Seq<(Seq<char>, Seq<char>)>,
    nested: Seq<(Seq<char>, Seq<(Seq<char>, Seq<char>)>)>,
) -> Seq<char>;

/// The views of a looked-up column.
pub open spec fn column_view(r: Option<Option<Vec<JsonField>>>) -> Option<Option<Seq<JsonField>>> {
    match r {
        Some(Some(v)) => Some(Some(v@)),
        Some(None) => Some(None),
        None => None,
    }
}

/// Calls `serde_json::from_str` and `Value::get`. Trusted: the result is
/// the named field of the document, `None` on a parse error.
#[verifier::external_body]
pub(crate) fn json_field(text: &str, key: &str) -> (r: Option<JsonField>)
    ensures
        r == json_field_of(text@, key@),
{
    let value: serde_json::Value = serde_json::from_str(text).ok()?;
    Some(
        match value.get(key) {
            None => JsonField::Missing,
            Some(serde_json::Value::String(s)) => JsonField::Text(s.clone()),
            Some(_) => JsonField::Other,
        },
    )
}

/// Calls `serde_json::from_str`, `Value::get` and `Value::as_array`.
/// Trusted: the result is the named column of the document, `None` on a
/// parse error.
#[verifier::external_body]
pub(crate) fn json_column(text: &str, key: &str, column: usize) -> (r: Option<Option<Vec<JsonField>>>)
    ensures
        column_view(r) == json_column_of(text@, key@, column as int),
{
    let value: serde_json::Value = serde_json::from_str(text).ok()?;
    Some(
        value.get(key).and_then(|a| a.as_array()).map(|rows| rows.iter().map(|row|
            match row.get(column) {
                None => JsonField::Missing,
                Some(serde_json::Value::String(s)) => JsonField::Text(s.clone()),
                Some(_) => JsonField::Other,
            }).collect()),
    )
}

/// Builds a `serde_json::Map` with `Map::insert` and calls
/// `Value::to_string`. Trusted: the result is the named text of the object.
#[verifier::external_body]
pub(crate) fn json_object(fields: &Members, nested: &Vec<(String, Members)>) -> (r: String)
    ensures
        r@ == json_object_text(members(fields@), objects(nested@)),
{
    let mut map = serde_json::Map::new();
    for (k, v) in fields {
        map.insert(k.clone(), serde_json::Value::String(v.clone()));
    }
    for (k, inner) in nested {
        let mut m = serde_json::Map::new();
        for (a, b) in inner {
            m.insert(a.clone(), serde_json::Value::String(b.clone()));
        }
        map.insert(k.clone(), serde_json::Value::Object(m));
    }
    serde_json::Value::Object(map).to_string()
}

/// A member from a name and a value.
pub fn member(name: &str, value: &str) -> (r: (String, String))
    ensures
        r.0@ == name@,
        r.1@ == value@,
{
    (name.to_owned(), value.to_owned())
}

} // verus!
