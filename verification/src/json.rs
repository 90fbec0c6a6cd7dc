//! JSON text, as far as the library reads or writes it.
use crate::text;
use vstd::prelude::*;

verus! {

/// Whether `serde_json::from_str` reads a text as a JSON value.
pub uninterp spec fn json_value(s: Seq<char>) -> bool;

/// Calls `serde_json::from_str` for a `serde_json::Value`. Claims that whether it succeeds
/// depends on the text alone.
#[verifier::external_body]
pub(crate) fn is_json(s: &str) -> (r: bool)
    ensures
        r == json_value(s@),
{
    serde_json::from_str::<serde_json::Value>(s).is_ok()
}

/// The string that a member of a JSON object holds, as `serde_json` reads the object.
pub uninterp spec fn json_text_member(s: Seq<char>, member: Seq<char>) -> Option<Seq<char>>;

/// Calls `serde_json::from_str` for a `serde_json::Value`, indexes the value by a member's name
/// and asks for the string there with `Value::as_str`. Claims that the string depends on the
/// text and the name alone, and that a text that is not JSON holds none.
#[verifier::external_body]
pub(crate) fn text_member(s: &str, member: &str) -> (r: Option<String>)
    ensures
        text::opt_view(r) == json_text_member(s@, member@),
        !json_value(s@) ==> r is None,
{
    let value = serde_json::from_str::<serde_json::Value>(s).ok()?;
    value[member].as_str().map(|found| found.to_string())
}

/// The JSON array that `serde_json::to_string` writes for a list of strings.
pub uninterp spec fn json_array(texts: Seq<Seq<char>>) -> Option<Seq<char>>;

/// Calls `serde_json::to_string` with a list of strings. Claims that what it writes depends on
/// the strings alone.
#[verifier::external_body]
pub(crate) fn write_array(texts: &Vec<String>) -> (r: Option<String>)
    ensures
        text::opt_view(r) == json_array(text::views(texts@)),
{
    serde_json::to_string(texts).ok()
}

} // verus!
