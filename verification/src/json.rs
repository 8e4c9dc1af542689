//! JSON values, carried and built by the `serde_json` crate.

use vstd::prelude::*;

verus! {

/// A JSON value of the `serde_json` crate.
#[verifier::external_type_specification]
#[verifier::external_body]
pub struct ExValue(serde_json::Value);

/// What a JSON object holds under each key; nothing where the value is no object.
pub uninterp spec fn members(value: serde_json::Value) -> Map<Seq<char>, serde_json::Value>;

/// Whether a JSON value is an object.
pub uninterp spec fn is_object(value: serde_json::Value) -> bool;

/// The text of a JSON string.
pub uninterp spec fn as_text(value: serde_json::Value) -> Option<Seq<char>>;

/// The number of a JSON integer that fits 64 bits with a sign.
pub uninterp spec fn as_integer(value: serde_json::Value) -> Option<i64>;

/// The flag of a JSON boolean.
pub uninterp spec fn as_flag(value: serde_json::Value) -> Option<bool>;

/// The number of a JSON number, as the bit pattern of a double.
pub uninterp spec fn as_double_bits(value: serde_json::Value) -> Option<u64>;

/// Whether a JSON value is null.
pub uninterp spec fn is_null(value: serde_json::Value) -> bool;

/// The compact text that `serde_json` writes for a value.
pub uninterp spec fn compact_text(value: serde_json::Value) -> Seq<char>;

/// No members at all.
pub open spec fn no_members() -> Map<Seq<char>, serde_json::Value> {
    Map::empty()
}

/// `serde_json::Map::new` as a value: an object that holds nothing.
#[verifier::external_body]
pub(crate) fn empty_object() -> (r: serde_json::Value)
    ensures
        is_object(r),
        members(r) == no_members(),
{
    serde_json::Value::Object(serde_json::Map::new())
}

/// `serde_json::Value::index_mut` with a key, assigned to: an object then holds the value under
/// the key, in place of what it held there before, and is otherwise unchanged.
#[verifier::external_body]
pub(crate) fn put(object: &mut serde_json::Value, key: &str, value: serde_json::Value)
    requires
        is_object(*old(object)),
    ensures
        is_object(*final(object)),
        members(*final(object)) == members(*old(object)).insert(key@, value),
{
    object[key] = value;
}

/// `serde_json::Value::from` on a text: a JSON string with that text.
#[verifier::external_body]
pub(crate) fn text(s: &str) -> (r: serde_json::Value)
    ensures
        as_text(r) == Some(s@),
{
    serde_json::Value::from(s)
}

/// `serde_json::Value::from` on an integer: a JSON number that reads back as it, as an integer
/// and as a double.
#[verifier::external_body]
pub(crate) fn integer(n: i32) -> (r: serde_json::Value)
    ensures
        as_integer(r) == Some(n as i64),
        as_double_bits(r) is Some,
        (crate::double::Double { bits: as_double_bits(r)->0 }).finite(),
        (crate::double::Double { bits: as_double_bits(r)->0 }).cut() == n,
{
    serde_json::Value::from(n)
}

/// `serde_json::Value::from` on a boolean: a JSON boolean that reads back as it.
#[verifier::external_body]
pub(crate) fn flag(b: bool) -> (r: serde_json::Value)
    ensures
        as_flag(r) == Some(b),
{
    serde_json::Value::from(b)
}

/// `serde_json::Value::from` on an option: the value itself, or null.
#[verifier::external_body]
pub(crate) fn or_null(value: Option<serde_json::Value>) -> (r: serde_json::Value)
    ensures
        value matches Some(v) ==> r == v,
        value is None ==> is_null(r),
{
    serde_json::Value::from(value)
}

/// `serde_json::Value::clone`: the same value once more.
#[verifier::external_body]
pub(crate) fn copy(value: &serde_json::Value) -> (r: serde_json::Value)
    ensures
        r == *value,
{
    value.clone()
}

/// `serde_json::Value::get` with a key: what an object holds under it.
#[verifier::external_body]
pub(crate) fn member<'a>(value: &'a serde_json::Value, key: &str) -> (r: Option<
    &'a serde_json::Value,
>)
    ensures
        r is Some <==> members(*value).contains_key(key@),
        r matches Some(v) ==> *v == members(*value)[key@],
{
    value.get(key)
}

/// `serde_json::Value::as_i64`.
#[verifier::external_body]
pub(crate) fn integer_in(value: &serde_json::Value) -> (r: Option<i64>)
    ensures
        r == as_integer(*value),
{
    value.as_i64()
}

/// `serde_json::Value::as_bool`.
#[verifier::external_body]
pub(crate) fn flag_in(value: &serde_json::Value) -> (r: Option<bool>)
    ensures
        r == as_flag(*value),
{
    value.as_bool()
}

/// `serde_json::Value::as_f64`: the number of a JSON number, as the bit pattern of a double.
#[verifier::external_body]
pub(crate) fn double_bits_in(value: &serde_json::Value) -> (r: Option<u64>)
    ensures
        r == as_double_bits(*value),
{
    match value.as_f64() {
        Some(x) => Some(x.to_bits()),
        None => None,
    }
}

/// `serde_json::Value::to_string`: the compact text of a value.
#[verifier::external_body]
pub(crate) fn printed(value: &serde_json::Value) -> (r: String)
    ensures
        r@ == compact_text(*value),
{
    value.to_string()
}

} // verus!
