//! JSON values, as `serde_json` holds them.

use vstd::prelude::*;

verus! {

/// What a JSON value says.
pub enum Json {
    Flag(bool),
    Number(u64),
    Text(Seq<char>),
    List(Seq<Json>),
    Object(Map<Seq<char>, Json>),
    /// Anything else (null, a negative or a fractional number), by its text.
    Other(Seq<char>),
}

/// The value type of `serde_json`.
#[verifier::external_type_specification]
#[verifier::external_body]
pub struct ExValue(serde_json::Value);

/// What a `serde_json` value holds, in the terms of [`Json`].
pub uninterp spec fn json_of(value: serde_json::Value) -> Json;

/// The compact text that `serde_json` writes for a JSON value.
pub uninterp spec fn json_written(json: Json) -> Seq<char>;

/// An object none of whose members is a list or an object.
pub open spec fn is_flat(json: Json) -> bool {
    json matches Json::Object(members) && forall|key: Seq<char>| #[trigger]
        members.contains_key(key) ==> !(members[key] is List) && !(members[key] is Object)
}

/// The number that a JSON object has under a key.
pub open spec fn number_under(json: Json, key: Seq<char>) -> Option<u64> {
    match json {
        Json::Object(members) => if members.contains_key(key) {
            match members[key] {
                Json::Number(n) => Some(n),
                _ => None,
            }
        } else {
            None
        },
        _ => None,
    }
}

/// An object without members: `serde_json::Map::new`, as a `serde_json::Value`.
#[verifier::external_body]
pub(crate) fn json_object() -> (object: serde_json::Value)
    ensures
        json_of(object) == Json::Object(Map::empty()),
{
    serde_json::Value::Object(serde_json::Map::new())
}

/// Gives an object a member, in place of an earlier one under the same key:
/// assignment through `IndexMut` of `serde_json::Value`, which inserts a missing
/// key and panics on a value that has no members.
#[verifier::external_body]
pub(crate) fn json_put(object: &mut serde_json::Value, key: &str, value: serde_json::Value)
    requires
        json_of(*old(object)) is Object,
    ensures
        json_of(*final(object)) == Json::Object(
            json_of(*old(object))->Object_0.insert(key@, json_of(value)),
        ),
{
    object[key] = value;
}

/// A number: `From<u64>` of `serde_json::Value`.
#[verifier::external_body]
pub(crate) fn json_number(n: u64) -> (value: serde_json::Value)
    ensures
        json_of(value) == Json::Number(n),
{
    serde_json::Value::from(n)
}

/// A truth value: `From<bool>` of `serde_json::Value`.
#[verifier::external_body]
pub(crate) fn json_flag(flag: bool) -> (value: serde_json::Value)
    ensures
        json_of(value) == Json::Flag(flag),
{
    serde_json::Value::from(flag)
}

/// A string: `From<&str>` of `serde_json::Value`.
#[verifier::external_body]
pub(crate) fn json_text(text: &str) -> (value: serde_json::Value)
    ensures
        json_of(value) == Json::Text(text@),
{
    serde_json::Value::from(text)
}

/// A list of values in their order: `From<Vec<_>>` of `serde_json::Value`.
#[verifier::external_body]
pub(crate) fn json_list(items: Vec<serde_json::Value>) -> (value: serde_json::Value)
    ensures
        json_of(value) == Json::List(items@.map_values(|item: serde_json::Value| json_of(item))),
{
    serde_json::Value::from(items)
}

/// The number under a key: `Index` of `serde_json::Value`, which gives null where
/// there is no such member, and then `as_u64`.
#[verifier::external_body]
pub(crate) fn json_number_under(object: &serde_json::Value, key: &str) -> (n: Option<u64>)
    ensures
        n == number_under(json_of(*object), key@),
{
    object[key].as_u64()
}

/// The compact text of a flat object: `Display` of `serde_json::Value`. The members
/// come out in the order of their keys, so the text depends on what the object
/// holds and on nothing else.
#[verifier::external_body]
pub(crate) fn json_write(object: &serde_json::Value) -> (text: String)
    requires
        is_flat(json_of(*object)),
    ensures
        text@ == json_written(json_of(*object)),
{
    object.to_string()
}

} // verus!
