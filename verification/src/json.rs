//! The metadata that a model provider sends along with a response.
use vstd::prelude::*;

verus! {

/// A JSON value of the `serde_json` crate.
#[verifier::external_type_specification]
#[verifier::external_body]
pub struct ExJsonValue(serde_json::Value);

/// The members of a JSON object by name; empty for any other value.
pub uninterp spec fn json_members(value: serde_json::Value) -> Map<Seq<char>, serde_json::Value>;

/// The characters of a JSON string; `None` for any other value.
pub uninterp spec fn json_string(value: serde_json::Value) -> Option<Seq<char>>;

/// `Value::get` with a string index: the member of that name, `None` where there
/// is none or the value is no object.
#[verifier::external_body]
pub(crate) fn member<'a>(value: &'a serde_json::Value, key: &str) -> (res: Option<
    &'a serde_json::Value,
>)
    ensures
        match res {
            Some(found) => json_members(*value).contains_key(key@) && *found == json_members(
                *value,
            )[key@],
            None => !json_members(*value).contains_key(key@),
        },
{
    value.get(key)
}

/// `Value::as_str`: the characters of a JSON string, `None` for any other value.
#[verifier::external_body]
pub(crate) fn as_str(value: &serde_json::Value) -> (res: Option<&str>)
    ensures
        match res {
            Some(text) => json_string(*value) == Some(text@),
            None => json_string(*value) is None,
        },
{
    value.as_str()
}

/// `Value::clone`: the same value again.
#[verifier::external_body]
pub(crate) fn copy_value(value: &serde_json::Value) -> (res: serde_json::Value)
    ensures
        res == *value,
{
    value.clone()
}

/// The member `key` of the metadata, where there is metadata and it has one.
pub open spec fn metadata_member(metadata: Option<serde_json::Value>, key: Seq<char>) -> Option<
    serde_json::Value,
> {
    match metadata {
        Some(value) => if json_members(value).contains_key(key) {
            Some(json_members(value)[key])
        } else {
            None
        },
        None => None,
    }
}

/// The session that the metadata names: its member `session_id`, where that is a
/// string which names an identifier.
pub open spec fn metadata_session(metadata: Option<serde_json::Value>) -> Option<u128> {
    match metadata_member(metadata, "session_id"@) {
        Some(value) => match json_string(value) {
            Some(text) => crate::ids::uuid_of_text(text),
            None => None,
        },
        None => None,
    }
}

/// The session that a response's metadata names.
pub fn session_of_metadata(metadata: &Option<serde_json::Value>) -> (res: Option<u128>)
    ensures
        res == metadata_session(*metadata),
{
    match metadata {
        Some(value) => match member(value, "session_id") {
            Some(session) => match as_str(session) {
                Some(text) => crate::ids::parse_uuid(text),
                None => None,
            },
            None => None,
        },
        None => None,
    }
}

/// The checkpoint state that a response's metadata carries: its member
/// `state_metadata`.
pub fn state_of_metadata(metadata: &Option<serde_json::Value>) -> (res: Option<serde_json::Value>)
    ensures
        res == metadata_member(*metadata, "state_metadata"@),
{
    match metadata {
        Some(value) => match member(value, "state_metadata") {
            Some(state) => Some(copy_value(state)),
            None => None,
        },
        None => None,
    }
}

} // verus!
