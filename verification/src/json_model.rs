//! What the window detection reads of JSON values, and the calls into the
//! `serde_json` crate that read them.

use vstd::prelude::*;

verus! {

#[verifier::external_type_specification]
#[verifier::external_body]
pub struct ExJsonValue(serde_json::Value);

#[verifier::external_type_specification]
#[verifier::external_body]
#[verifier::reject_recursive_types(K)]
#[verifier::reject_recursive_types(V)]
pub struct ExJsonMap<K, V>(serde_json::Map<K, V>);

#[verifier::external_type_specification]
#[verifier::external_body]
pub struct ExJsonError(serde_json::Error);

/// What a JSON value holds. A number is an integer, or a float.
pub enum JsonItem {
    Null,
    Flag(bool),
    Integer(int),
    Float,
    Text(Seq<char>),
    List(Seq<JsonItem>),
    Object(Map<Seq<char>, JsonItem>),
}

/// Name for what a `serde_json::Value` holds.
pub uninterp spec fn json_item(value: serde_json::Value) -> JsonItem;

/// Name for the fields of a `serde_json::Map`, keyed by their names.
pub uninterp spec fn json_fields(object: serde_json::Map<String, serde_json::Value>) -> Map<
    Seq<char>,
    JsonItem,
>;

/// Name for what `serde_json::from_str::<Value>` gives for a text: `None`
/// where it fails.
pub uninterp spec fn json_document(text: Seq<char>) -> Option<JsonItem>;

/// Calls `serde_json::from_str::<serde_json::Value>`. The contract claims
/// only that the result is the one named by `json_document` for this text.
#[verifier::external_body]
pub(crate) fn parse_json(text: &str) -> (r: Result<serde_json::Value, serde_json::Error>)
    ensures
        match r {
            Ok(value) => json_document(text@) == Some(json_item(value)),
            Err(_) => json_document(text@) is None,
        },
{
    serde_json::from_str::<serde_json::Value>(text)
}

/// Calls `serde_json::Value::as_array`, which gives the elements of a
/// `Value::Array` in order and `None` for any other value.
#[verifier::external_body]
pub(crate) fn json_as_array(value: &serde_json::Value) -> (r: Option<&Vec<serde_json::Value>>)
    ensures
        match r {
            Some(elements) => json_item(*value) is List && json_item(*value)->List_0.len()
                == elements@.len() && forall|i: int|
                0 <= i < elements@.len() ==> json_item(#[trigger] elements@[i]) == json_item(
                    *value,
                )->List_0[i],
            None => !(json_item(*value) is List),
        },
{
    value.as_array()
}

/// Calls `serde_json::Value::as_object`, which gives the fields of a
/// `Value::Object` and `None` for any other value.
#[verifier::external_body]
pub(crate) fn json_as_object(value: &serde_json::Value) -> (r: Option<
    &serde_json::Map<String, serde_json::Value>,
>)
    ensures
        match r {
            Some(object) => json_item(*value) == JsonItem::Object(json_fields(*object)),
            None => !(json_item(*value) is Object),
        },
{
    value.as_object()
}

/// Calls `serde_json::Map::get`, which gives the value of the field of that
/// name, and `None` where there is none.
#[verifier::external_body]
pub(crate) fn json_get<'a>(
    object: &'a serde_json::Map<String, serde_json::Value>,
    key: &str,
) -> (r: Option<&'a serde_json::Value>)
    ensures
        match r {
            Some(value) => json_fields(*object).contains_key(key@) && json_item(*value)
                == json_fields(*object)[key@],
            None => !json_fields(*object).contains_key(key@),
        },
{
    object.get(key)
}

/// Calls `serde_json::Value::as_bool`, which gives the boolean of a
/// `Value::Bool` and `None` for any other value.
#[verifier::external_body]
pub(crate) fn json_as_bool(value: &serde_json::Value) -> (r: Option<bool>)
    ensures
        match r {
            Some(b) => json_item(*value) == JsonItem::Flag(b),
            None => !(json_item(*value) is Flag),
        },
{
    value.as_bool()
}

/// Calls `serde_json::Value::as_u64`, which gives an integer that fits in a
/// `u64` and `None` for any other value.
#[verifier::external_body]
pub(crate) fn json_as_u64(value: &serde_json::Value) -> (r: Option<u64>)
    ensures
        match json_item(*value) {
            JsonItem::Integer(n) => if 0 <= n <= u64::MAX {
                r == Some(n as u64)
            } else {
                r is None
            },
            _ => r is None,
        },
{
    value.as_u64()
}

/// Calls `serde_json::Value::as_i64`, which gives an integer that fits in an
/// `i64` and `None` for any other value.
#[verifier::external_body]
pub(crate) fn json_as_i64(value: &serde_json::Value) -> (r: Option<i64>)
    ensures
        match json_item(*value) {
            JsonItem::Integer(n) => if i64::MIN <= n <= i64::MAX {
                r == Some(n as i64)
            } else {
                r is None
            },
            _ => r is None,
        },
{
    value.as_i64()
}

/// Calls `serde_json::Value::as_str`, which gives the string of a
/// `Value::String` and `None` for any other value.
#[verifier::external_body]
pub(crate) fn json_as_str(value: &serde_json::Value) -> (r: Option<&str>)
    ensures
        match r {
            Some(s) => json_item(*value) == JsonItem::Text(s@),
            None => !(json_item(*value) is Text),
        },
{
    value.as_str()
}

} // verus!
