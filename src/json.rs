//! The JSON values that claims carry, and the calls into serde_json that produce them.
use vstd::prelude::*;

verus! {

/// A JSON value of serde_json, carried through the library without looking inside.
#[verifier::external_type_specification]
#[verifier::external_body]
pub struct ExValue(serde_json::Value);

/// The value that a whole text parses to as JSON, if it is one JSON document.
pub uninterp spec fn json_parse(text: Seq<char>) -> Option<serde_json::Value>;

/// The entries of a text that parses as one JSON object, in the order of serde_json's map.
pub uninterp spec fn json_object_parse(text: Seq<char>) -> Option<Seq<(Seq<char>, serde_json::Value)>>;

/// The JSON number holding an unsigned integer.
pub uninterp spec fn json_unsigned(n: u64) -> serde_json::Value;

/// The JSON string holding a text.
pub uninterp spec fn json_string(text: Seq<char>) -> serde_json::Value;

/// The value of a JSON number that is an integer within `i64`.
pub uninterp spec fn json_as_i64(v: serde_json::Value) -> Option<i64>;

/// The text that serde_json writes for a value, when it can write it.
pub uninterp spec fn json_text(v: serde_json::Value) -> Option<Seq<char>>;

/// The value of a field of a JSON object.
pub uninterp spec fn json_field(v: serde_json::Value, field: Seq<char>) -> Option<serde_json::Value>;

/// The text of a JSON string.
pub uninterp spec fn json_as_str(v: serde_json::Value) -> Option<Seq<char>>;

/// The elements of a JSON array.
pub uninterp spec fn json_as_array(v: serde_json::Value) -> Option<Seq<serde_json::Value>>;

/// Relies on the Clone that serde_json derives for Value: the copy is the same value.
pub assume_specification[ <serde_json::Value as Clone>::clone ](v: &serde_json::Value) -> (r: serde_json::Value)
    ensures
        r == *v,
;

/// Relies on serde_json::from_str into a Value: the parse of a text depends on the text alone.
#[verifier::external_body]
pub fn parse_json(text: &str) -> (r: Option<serde_json::Value>)
    ensures
        r == json_parse(text@),
{
    serde_json::from_str::<serde_json::Value>(text).ok()
}

/// Relies on serde_json::from_str into a Map: fails unless the text is one JSON object.
#[verifier::external_body]
pub fn parse_json_object(text: &str) -> (r: Option<Vec<(String, serde_json::Value)>>)
    ensures
        r is Some <==> json_object_parse(text@) is Some,
        r matches Some(entries) ==> entries@.len() == json_object_parse(text@)->0.len()
            && forall|i: int|
            0 <= i < entries@.len() ==> #[trigger] entries@[i].0@
                == json_object_parse(text@)->0[i].0 && entries@[i].1 == json_object_parse(
                text@,
            )->0[i].1,
{
    serde_json::from_str::<serde_json::Map<String, serde_json::Value>>(text).ok().map(
        |m| m.into_iter().collect(),
    )
}

/// Relies on serde_json's `From<u64>` for Value: a JSON number.
#[verifier::external_body]
pub fn unsigned_value(n: u64) -> (r: serde_json::Value)
    ensures
        r == json_unsigned(n),
{
    serde_json::Value::from(n)
}

/// Relies on serde_json's `From<String>` for Value: a JSON string.
#[verifier::external_body]
pub fn string_value(text: String) -> (r: serde_json::Value)
    ensures
        r == json_string(text@),
{
    serde_json::Value::from(text)
}

/// Relies on serde_json::Value::as_i64: the integer a number holds, when it fits in `i64`.
#[verifier::external_body]
pub fn value_as_i64(v: &serde_json::Value) -> (r: Option<i64>)
    ensures
        r == json_as_i64(*v),
{
    v.as_i64()
}

/// Relies on serde_json::to_string: the compact text of a value.
#[verifier::external_body]
pub fn value_to_text(v: &serde_json::Value) -> (r: Option<String>)
    ensures
        r matches Some(t) ==> json_text(*v) == Some(t@),
        r is None ==> json_text(*v) is None,
{
    serde_json::to_string(v).ok()
}

/// Relies on serde_json::Value::get with a field name: the field's value, when `v` is an
/// object that has the field.
#[verifier::external_body]
pub fn field_of(v: &serde_json::Value, field: &str) -> (r: Option<serde_json::Value>)
    ensures
        r == json_field(*v, field@),
{
    v.get(field).cloned()
}

/// Relies on serde_json::Value::as_str: the text, when `v` is a JSON string.
#[verifier::external_body]
pub fn value_as_str(v: &serde_json::Value) -> (r: Option<String>)
    ensures
        r matches Some(t) ==> json_as_str(*v) == Some(t@),
        r is None ==> json_as_str(*v) is None,
{
    v.as_str().map(|t| t.to_owned())
}

/// Relies on serde_json::Value::as_array: the elements, when `v` is a JSON array.
#[verifier::external_body]
pub fn value_as_array(v: &serde_json::Value) -> (r: Option<Vec<serde_json::Value>>)
    ensures
        r matches Some(a) ==> json_as_array(*v) == Some(a@),
        r is None ==> json_as_array(*v) is None,
{
    v.as_array().cloned()
}

} // verus!
