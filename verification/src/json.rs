//! The JSON of a state file.

use vstd::prelude::*;

verus! {

/// A JSON value of `serde_json`.
#[verifier::external_type_specification]
#[verifier::external_body]
pub struct ExJsonValue(serde_json::Value);

/// An error of `serde_json`.
#[verifier::external_type_specification]
#[verifier::external_body]
pub struct ExJsonError(serde_json::Error);

/// What `serde_json::from_reader` makes of a text: a value, if the whole text is one.
pub uninterp spec fn parsed_json(text: Seq<u8>) -> Option<serde_json::Value>;

/// The members of a JSON object by their names; none for a value that is no object.
pub uninterp spec fn json_members(value: serde_json::Value) -> Map<Seq<char>, serde_json::Value>;

/// `serde_json::from_reader` on a text in memory: gives the value of the text, or an error
/// for a text that is not one JSON value.
#[verifier::external_body]
pub(crate) fn parse_json(text: &[u8]) -> (parsed: Result<serde_json::Value, serde_json::Error>)
    ensures
        parsed is Ok <==> parsed_json(text@) is Some,
        parsed matches Ok(value) ==> parsed_json(text@) == Some(value),
{
    serde_json::from_reader(text)
}

/// `serde_json::Value::get` with a string: the member of that name of an object, nothing if
/// there is none or the value is no object.
#[verifier::external_body]
pub(crate) fn json_get<'a>(value: &'a serde_json::Value, name: &str) -> (member: Option<
    &'a serde_json::Value,
>)
    ensures
        member is Some <==> json_members(*value).contains_key(name@),
        member matches Some(found) ==> *found == json_members(*value)[name@],
{
    value.get(name)
}

} // verus!
