//! The boundary to the JSON library.
//!
//! The three functions at the end of this file call `serde_json`. Verus does
//! not look into them: it takes their contracts on trust. Each contract says
//! only that the call is a function of its arguments, by naming its result.

use vstd::prelude::*;

verus! {

/// The view of a text that may have failed to come about: the text's
/// characters, or the characters of the reason.
pub open spec fn text_or_reason(r: Result<String, String>) -> Result<Seq<char>, Seq<char>> {
    match r {
        Ok(text) => Ok(text@),
        Err(reason) => Err(reason@),
    }
}

/// The view of an optional text that may have failed to come about.
pub open spec fn found_or_reason(r: Result<Option<String>, String>) -> Result<
    Option<Seq<char>>,
    Seq<char>,
> {
    match r {
        Ok(found) => Ok(found.deep_view()),
        Err(reason) => Err(reason@),
    }
}

/// The view of a list of optional texts that may have failed to come about.
pub open spec fn list_or_reason(r: Result<Vec<Option<String>>, String>) -> Result<
    Seq<Option<Seq<char>>>,
    Seq<char>,
> {
    match r {
        Ok(list) => Ok(list.deep_view()),
        Err(reason) => Err(reason@),
    }
}

/// What `serde_json::to_string` writes for the JSON object that has a string
/// member for each pair of `texts` and a number member for each pair of
/// `numbers`, or how `serde_json` words its refusal.
pub uninterp spec fn json_object_text(
    texts: Seq<(Seq<char>, Seq<char>)>,
    numbers: Seq<(Seq<char>, u64)>,
) -> Result<Seq<char>, Seq<char>>;

/// What reading `text` as a JSON object and looking up `name` in it gives:
/// the string that the object holds under `name`, `None` where `text` is JSON
/// and holds no string there, or how `serde_json` words its refusal of `text`.
pub uninterp spec fn json_member_string(text: Seq<char>, name: Seq<char>) -> Result<
    Option<Seq<char>>,
    Seq<char>,
>;

/// What reading `text` as a JSON array and looking up `name` in each element
/// gives: for each element in order what [`json_member_string`] describes for
/// one document, or how `serde_json` words its refusal of `text`.
pub uninterp spec fn json_element_strings(text: Seq<char>, name: Seq<char>) -> Result<
    Seq<Option<Seq<char>>>,
    Seq<char>,
>;

/// Writes a JSON object with the members `texts` (strings) and `numbers`.
///
/// Builds a `serde_json::Value::Object` from the pairs and calls
/// `serde_json::to_string` on it. The contract claims that the outcome is a
/// function of the pairs; it claims nothing of the text written, nor that
/// the call succeeds.
#[verifier::external_body]
pub(crate) fn write_object(texts: &Vec<(String, String)>, numbers: &Vec<(String, u64)>) -> (r:
    Result<String, String>)
    ensures
        text_or_reason(r) == json_object_text(texts.deep_view(), numbers.deep_view()),
{
    let mut object = serde_json::Map::new();
    object.extend(texts.iter().map(|(n, v)| (n.clone(), serde_json::Value::from(v.as_str()))));
    object.extend(numbers.iter().map(|(n, v)| (n.clone(), serde_json::Value::from(*v))));
    serde_json::to_string(&serde_json::Value::Object(object)).map_err(|e| e.to_string())
}

/// Reads `text` as JSON and gives the string under `name`.
///
/// Calls `serde_json::from_str` for a `serde_json::Value`, then
/// `Value::get(name)` and `Value::as_str` on what it finds. The contract
/// claims that the outcome is a function of `text` and `name`; it claims
/// nothing of which texts are JSON.
#[verifier::external_body]
pub(crate) fn read_member_string(text: &str, name: &str) -> (r: Result<Option<String>, String>)
    ensures
        found_or_reason(r) == json_member_string(text@, name@),
{
    serde_json::from_str::<serde_json::Value>(text)
        .map(|value| value.get(name).and_then(|v| v.as_str()).map(String::from))
        .map_err(|e| e.to_string())
}

/// Reads `text` as a JSON array and gives the string under `name` of each
/// element.
///
/// Calls `serde_json::from_str` for a `Vec<serde_json::Value>`, then
/// `Value::get(name)` and `Value::as_str` on each element. The contract
/// claims that the outcome is a function of `text` and `name`; it claims
/// nothing of which texts are JSON arrays.
#[verifier::external_body]
pub(crate) fn read_element_strings(text: &str, name: &str) -> (r: Result<
    Vec<Option<String>>,
    String,
>)
    ensures
        list_or_reason(r) == json_element_strings(text@, name@),
{
    serde_json::from_str::<Vec<serde_json::Value>>(text)
        .map(|items| items.iter().map(|i| i.get(name).and_then(|v| v.as_str()).map(String::from)).collect())
        .map_err(|e| e.to_string())
}

} // verus!
