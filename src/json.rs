//! The JSON values that a style record is read from, and the calls into
//! serde_json that produce them.
use vstd::prelude::*;
use crate::text::same_text;
use serde_json::Value;

verus! {

#[verifier::external_type_specification]
#[verifier::external_body]
pub struct ExJsonValue(serde_json::Value);

#[verifier::external_type_specification]
#[verifier::external_body]
pub struct ExJsonNumber(serde_json::Number);

#[verifier::external_type_specification]
#[verifier::external_body]
pub struct ExJsonError(serde_json::Error);

/// Relies on the derived `Clone` of serde_json's `Number`: the copy is equal.
pub assume_specification[ <serde_json::Number as Clone>::clone ](n: &serde_json::Number) -> (r:
    serde_json::Number)
    ensures
        r == *n,
;

/// Relies on the derived `Clone` of serde_json's `Value`: the copy is equal.
pub assume_specification[ <serde_json::Value as Clone>::clone ](v: &serde_json::Value) -> (r:
    serde_json::Value)
    ensures
        r == *v,
;

/// One value of a style object, by its shape. A number is carried as
/// serde_json holds it; arrays and objects are carried whole.
#[derive(Debug, Clone, PartialEq)]
pub enum JsonField {
    Null,
    Bool(bool),
    Number(serde_json::Number),
    Text(String),
    Nested(serde_json::Value),
}

/// What serde_json reads from a text: nothing where the text is not JSON,
/// `Some(None)` where it is JSON but not an object, and otherwise the
/// object's entries in the order its map holds them, each value by its shape.
pub uninterp spec fn json_object_of(text: Seq<char>) -> Option<Option<Seq<(String, JsonField)>>>;

/// Relies on `serde_json::from_str` into a `Value`, whose result depends on
/// the text alone, and on the map of `Value::Object` handing out its entries in
/// key order; each value moves to the `JsonField` variant of the same shape.
#[verifier::external_body]
pub(crate) fn read_object(text: &str) -> (r: Result<Option<Vec<(String, JsonField)>>, serde_json::Error>)
    ensures
        match r {
            Err(_) => json_object_of(text@) is None,
            Ok(None) => json_object_of(text@) == Some(None::<Seq<(String, JsonField)>>),
            Ok(Some(v)) => json_object_of(text@) == Some(Some(v@)),
        },
{
    match serde_json::from_str::<Value>(text)? {
        Value::Object(m) => Ok(Some(m.into_iter().map(|(k, v)| (k, match v {
            Value::Null => JsonField::Null,
            Value::Bool(b) => JsonField::Bool(b),
            Value::Number(n) => JsonField::Number(n),
            Value::String(s) => JsonField::Text(s),
            other => JsonField::Nested(other),
        })).collect())),
        _ => Ok(None),
    }
}

/// Relies on the `Display` of `serde_json::Error`: a description of the
/// failure with its line and column.
#[verifier::external_body]
pub(crate) fn json_error_text(e: &serde_json::Error) -> (r: String) {
    e.to_string()
}

/// The position of the first entry under `name`.
pub fn find(f: &Vec<(String, JsonField)>, name: &str) -> (r: Option<usize>)
    ensures
        match r {
            Some(i) => i < f@.len() && lookup(f@, name@) == Some(f@[i as int].1),
            None => lookup(f@, name@) is None,
        },
{
    let mut i: usize = 0;
    while i < f.len()
        invariant
            i <= f@.len(),
            lookup(f@, name@) == lookup_from(f@, name@, i as int),
        decreases f@.len() - i,
    {
        if same_text(f[i].0.as_str(), name) {
            return Some(i);
        }
        i = i + 1;
    }
    None
}

/// The first value under `name` from position `i` on.
pub open spec fn lookup_from(f: Seq<(String, JsonField)>, name: Seq<char>, i: int) -> Option<JsonField>
    decreases f.len() - i,
{
    if i < 0 || i >= f.len() {
        None
    } else if f[i].0@ == name {
        Some(f[i].1)
    } else {
        lookup_from(f, name, i + 1)
    }
}

/// The value under `name`: that of the first entry with this key.
pub open spec fn lookup(f: Seq<(String, JsonField)>, name: Seq<char>) -> Option<JsonField> {
    lookup_from(f, name, 0)
}

} // verus!
