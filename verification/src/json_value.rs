//! JSON values, as the `serde_json` crate holds and writes them.

use vstd::prelude::*;

verus! {

/// `serde_json::Value`.
#[verifier::external_type_specification]
#[verifier::external_body]
pub struct ExValue(serde_json::Value);

/// What a JSON value holds, as far as this crate builds one. The fields of a
/// record stand in the order of their keys.
pub enum Json {
    Number(u64),
    Text(Seq<char>),
    List(Seq<Json>),
    Record(Seq<(Seq<char>, Json)>),
}

/// Whether a text comes before another: by the first character in which they
/// differ, and a text before its continuations.
pub open spec fn precedes(first: Seq<char>, second: Seq<char>) -> bool
    decreases first.len(),
{
    if second.len() == 0 {
        false
    } else if first.len() == 0 {
        true
    } else if first[0] != second[0] {
        first[0] < second[0]
    } else {
        precedes(first.drop_first(), second.drop_first())
    }
}

/// What a `serde_json::Value` holds.
pub uninterp spec fn json_of(value: serde_json::Value) -> Json;

/// The compact text that `serde_json::Value` displays as, by what it holds.
pub uninterp spec fn json_text(json: Json) -> Seq<char>;

/// `serde_json::Value::from` of a `u64`: that number.
#[verifier::external_body]
pub(crate) fn number(n: u64) -> (value: serde_json::Value)
    ensures
        json_of(value) == Json::Number(n),
{
    serde_json::Value::from(n)
}

/// `serde_json::Value::from` of a `&str`: that text.
#[verifier::external_body]
pub(crate) fn string(text: &str) -> (value: serde_json::Value)
    ensures
        json_of(value) == Json::Text(text@),
{
    serde_json::Value::from(text)
}

/// `serde_json::Value::from` of a `Vec<serde_json::Value>`: the list of those
/// values, in order.
#[verifier::external_body]
pub(crate) fn list(items: Vec<serde_json::Value>) -> (value: serde_json::Value)
    ensures
        json_of(value) == Json::List(items@.map_values(|item: serde_json::Value| json_of(item))),
{
    serde_json::Value::from(items)
}

/// `serde_json::Value::from_iter` of keys with their values: the record of
/// those fields. They are given in the order of their keys, each key once, so
/// the crate's map keeps them in that order, whether it sorts its keys or keeps
/// them as they came.
#[verifier::external_body]
pub(crate) fn record(fields: Vec<(&str, serde_json::Value)>) -> (value: serde_json::Value)
    requires
        forall|i: int, j: int|
            0 <= i < j < fields@.len() ==> precedes(
                (#[trigger] fields@[i]).0@,
                (#[trigger] fields@[j]).0@,
            ),
    ensures
        json_of(value) == Json::Record(
            fields@.map_values(|field: (&str, serde_json::Value)| (field.0@, json_of(field.1))),
        ),
{
    serde_json::Value::from_iter(fields)
}

/// `to_string` of a `serde_json::Value`: its compact text, which is named, not
/// described.
#[verifier::external_body]
pub(crate) fn write_json(value: &serde_json::Value) -> (text: String)
    ensures
        text@ == json_text(json_of(*value)),
{
    value.to_string()
}

} // verus!
