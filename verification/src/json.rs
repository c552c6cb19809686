//! JSON objects as `serde_json` builds, writes and reads them.
//!
//! Records are flat: every member that a record reads or writes is a text or
//! an unsigned number. The object itself is `serde_json`'s map; this module
//! states, without proof, what its methods do to the members, and names the
//! bytes that `serde_json` writes for an object and the object that it reads
//! from bytes.

use vstd::prelude::*;

verus! {

/// `serde_json::Map`, held and handed on without a look inside.
#[verifier::external_type_specification]
#[verifier::external_body]
#[verifier::reject_recursive_types(K)]
#[verifier::reject_recursive_types(V)]
pub struct ExJsonMap<K, V>(serde_json::Map<K, V>);

/// `serde_json::Value`, held and handed on without a look inside.
#[verifier::external_type_specification]
#[verifier::external_body]
pub struct ExJsonValue(serde_json::Value);

/// `serde_json::Error`, held and handed on without a look inside.
#[verifier::external_type_specification]
#[verifier::external_body]
pub struct ExJsonError(serde_json::Error);

/// A JSON object: member names to values.
pub type JsonObject = serde_json::Map<String, serde_json::Value>;

/// What a member of an object holds, as far as a record can read it.
pub enum JsonItem {
    /// A JSON string.
    Text(Seq<char>),
    /// A JSON number that is a whole number from 0 to 2^64 - 1.
    Unsigned(u64),
    /// Anything else: null, a boolean, another number, an array, an object.
    Other,
}

/// The members of an object by name.
pub type JsonMembers = Map<Seq<char>, JsonItem>;

/// A member of an object as it is handed to executable code.
#[derive(Debug, Clone, PartialEq, Eq)]
pub enum JsonValue {
    /// A JSON string.
    Text(String),
    /// A JSON number that is a whole number from 0 to 2^64 - 1.
    Unsigned(u64),
    /// Anything else.
    Other,
}

impl View for JsonValue {
    type V = JsonItem;

    open spec fn view(&self) -> JsonItem {
        match self {
            JsonValue::Text(s) => JsonItem::Text(s@),
            JsonValue::Unsigned(n) => JsonItem::Unsigned(*n),
            JsonValue::Other => JsonItem::Other,
        }
    }
}

/// The members that an object holds.
pub uninterp spec fn json_members(object: JsonObject) -> JsonMembers;

/// The bytes that `serde_json::to_vec` writes for an object with these
/// members, `None` where it fails.
pub uninterp spec fn json_encoding(members: JsonMembers) -> Option<Seq<u8>>;

/// The members of the object that `serde_json::from_slice` reads from these
/// bytes, `None` where it fails.
pub uninterp spec fn json_decoding(bytes: Seq<u8>) -> Option<JsonMembers>;

/// Every member is a text or an unsigned number.
pub open spec fn is_flat(members: JsonMembers) -> bool {
    forall|key: Seq<char>| members.contains_key(key) ==> !(#[trigger] members[key] is Other)
}

/// `serde_json::Map::new`: an object without members.
#[verifier::external_body]
pub(crate) fn json_object_new() -> (object: JsonObject)
    ensures
        json_members(object) == JsonMembers::empty(),
{
    serde_json::Map::new()
}

/// `serde_json::Map::insert` with a JSON string as the value: the member of
/// that name now holds the text, whether or not the name was there before, and
/// the other members are as they were.
#[verifier::external_body]
pub(crate) fn json_object_insert_text(object: &mut JsonObject, key: &str, value: &str)
    ensures
        json_members(*final(object)) == json_members(*old(object)).insert(
            key@,
            JsonItem::Text(value@),
        ),
{
    object.insert(key.to_string(), serde_json::Value::String(value.to_string()));
}

/// `serde_json::Map::insert` with the number that `serde_json::Value::from`
/// makes of a `u64`: the member of that name now holds the number, and the
/// other members are as they were.
#[verifier::external_body]
pub(crate) fn json_object_insert_unsigned(object: &mut JsonObject, key: &str, value: u64)
    ensures
        json_members(*final(object)) == json_members(*old(object)).insert(
            key@,
            JsonItem::Unsigned(value),
        ),
{
    object.insert(key.to_string(), serde_json::Value::from(value));
}

/// `serde_json::Map::get`: `None` where the object has no member of that
/// name, else what the member holds. A string is handed out as its text, a
/// number for which `serde_json::Number::as_u64` gives a value as that value,
/// anything else as `Other`.
#[verifier::external_body]
pub(crate) fn json_object_get(object: &JsonObject, key: &str) -> (value: Option<JsonValue>)
    ensures
        value is Some == json_members(*object).contains_key(key@),
        value matches Some(v) ==> v@ == json_members(*object)[key@],
{
    match object.get(key) {
        None => None,
        Some(serde_json::Value::String(s)) => Some(JsonValue::Text(s.clone())),
        Some(serde_json::Value::Number(n)) => match n.as_u64() {
            Some(u) => Some(JsonValue::Unsigned(u)),
            None => Some(JsonValue::Other),
        },
        Some(_) => Some(JsonValue::Other),
    }
}

/// `serde_json::to_vec` on an object whose members are texts and unsigned
/// numbers. The bytes are a function of the members, and
/// `serde_json::from_slice` reads the same members back from them.
#[verifier::external_body]
pub(crate) fn json_object_to_bytes(object: &JsonObject) -> (bytes: Result<
    Vec<u8>,
    serde_json::Error,
>)
    requires
        is_flat(json_members(*object)),
    ensures
        bytes matches Ok(b) ==> json_encoding(json_members(*object)) == Some(b@),
        bytes matches Ok(b) ==> json_decoding(b@) == Some(json_members(*object)),
        bytes is Err ==> json_encoding(json_members(*object)) is None,
{
    serde_json::to_vec(object)
}

/// `serde_json::from_slice` into an object: an error unless the bytes are one
/// JSON object with nothing but white space around it. Of two members with the
/// same name the later one stays.
#[verifier::external_body]
pub(crate) fn json_object_from_bytes(bytes: &[u8]) -> (object: Result<
    JsonObject,
    serde_json::Error,
>)
    ensures
        object matches Ok(o) ==> json_decoding(bytes@) == Some(json_members(o)),
        object is Err ==> json_decoding(bytes@) is None,
{
    serde_json::from_slice(bytes)
}

/// The text of a member, `None` where it is missing or holds no text.
pub open spec fn member_text(members: JsonMembers, key: Seq<char>) -> Option<Seq<char>> {
    if members.contains_key(key) {
        match members[key] {
            JsonItem::Text(s) => Some(s),
            _ => None,
        }
    } else {
        None
    }
}

/// The number of a member, `None` where it is missing or holds no unsigned number.
pub open spec fn member_unsigned(members: JsonMembers, key: Seq<char>) -> Option<u64> {
    if members.contains_key(key) {
        match members[key] {
            JsonItem::Unsigned(n) => Some(n),
            _ => None,
        }
    } else {
        None
    }
}

/// Reads a member that must hold a text.
pub fn object_text(object: &JsonObject, key: &str) -> (text: Option<String>)
    ensures
        text matches Some(s) ==> member_text(json_members(*object), key@) == Some(s@),
        text is None ==> member_text(json_members(*object), key@) is None,
{
    match json_object_get(object, key) {
        Some(JsonValue::Text(s)) => Some(s),
        _ => None,
    }
}

/// Reads a member that must hold an unsigned number.
pub fn object_unsigned(object: &JsonObject, key: &str) -> (number: Option<u64>)
    ensures
        number == member_unsigned(json_members(*object), key@),
{
    match json_object_get(object, key) {
        Some(JsonValue::Unsigned(n)) => Some(n),
        _ => None,
    }
}

/// The number of a member as a `usize`, `None` where the member is missing,
/// holds no unsigned number, or holds one that a `usize` cannot hold.
pub open spec fn member_usize(members: JsonMembers, key: Seq<char>) -> Option<usize> {
    match member_unsigned(members, key) {
        Some(n) => if n <= usize::MAX {
            Some(n as usize)
        } else {
            None
        },
        None => None,
    }
}

/// The number of a member as a `u8`, `None` where the member is missing,
/// holds no unsigned number, or holds one above 255.
pub open spec fn member_u8(members: JsonMembers, key: Seq<char>) -> Option<u8> {
    match member_unsigned(members, key) {
        Some(n) => if n <= u8::MAX {
            Some(n as u8)
        } else {
            None
        },
        None => None,
    }
}

/// Reads a member that must hold an unsigned number within `usize`.
pub fn object_usize(object: &JsonObject, key: &str) -> (number: Option<usize>)
    ensures
        number == member_usize(json_members(*object), key@),
{
    let n: u64 = object_unsigned(object, key)?;
    if n <= usize::MAX as u64 {
        Some(n as usize)
    } else {
        None
    }
}

/// Reads a member that must hold an unsigned number below 256.
pub fn object_u8(object: &JsonObject, key: &str) -> (number: Option<u8>)
    ensures
        number == member_u8(json_members(*object), key@),
{
    let n: u64 = object_unsigned(object, key)?;
    if n <= u8::MAX as u64 {
        Some(n as u8)
    } else {
        None
    }
}

} // verus!
