//! What the library takes from `serde_json`, and what it assumes of it.
use vstd::prelude::*;

verus! {

#[verifier::external_type_specification]
#[verifier::external_body]
pub struct ExJsonError(serde_json::Error);

/// The texts held by a sequence of strings, in order.
pub open spec fn texts_of(v: Seq<String>) -> Seq<Seq<char>> {
    v.map_values(|s: String| s@)
}

/// The array of strings that a JSON text denotes, or `None` where the text is
/// not valid JSON or not an array whose elements are all strings.
pub uninterp spec fn json_string_array(text: Seq<char>) -> Option<Seq<Seq<char>>>;

/// Relies on `serde_json::from_str::<Vec<String>>`: it decodes a JSON array of
/// strings, keeping every element in its order, and fails on any other text.
/// The outcome depends on the text alone.
#[verifier::external_body]
pub(crate) fn strings_from_json(text: &str) -> (r: Result<Vec<String>, serde_json::Error>)
    ensures
        r is Ok ==> json_string_array(text@) == Some(texts_of(r->Ok_0@)),
        r is Err ==> json_string_array(text@) is None,
{
    serde_json::from_str::<Vec<String>>(text)
}

/// Relies on `serde_json::Error::line`: where in the text the error was found.
pub assume_specification[ serde_json::Error::line ](e: &serde_json::Error) -> usize;

/// Relies on `serde_json::Error::column`: where in the line the error was found.
pub assume_specification[ serde_json::Error::column ](e: &serde_json::Error) -> usize;

} // verus!
