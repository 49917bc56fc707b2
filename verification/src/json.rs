//! The boundary to `serde_json`: the outside types that requests carry and the
//! one call the cost estimate makes into the crate.

use std::collections::HashMap;
use vstd::prelude::*;

verus! {

/// `serde_json::Value`: an arbitrary JSON value, carried through unread.
#[verifier::external_type_specification]
#[verifier::external_body]
pub struct ExJsonValue(serde_json::Value);

/// `serde_json::Error`: why a serialization was given up.
#[verifier::external_type_specification]
#[verifier::external_body]
pub struct ExJsonError(serde_json::Error);

/// The number of characters in the JSON text that `serde_json::to_string`
/// writes for an object with these entries, or `None` where it gives up.
///
/// The text lists the entries in the order in which the map is walked, which
/// differs from run to run; its length does not depend on that order.
pub uninterp spec fn json_text_len(entries: Map<String, serde_json::Value>) -> Option<nat>;

/// Calls `serde_json::to_string` on a map from names to JSON values.
///
/// Not proved: that the outcome has the length `json_text_len` names for the
/// map's entries, and is an error exactly where `json_text_len` is `None`.
#[verifier::external_body]
pub(crate) fn to_json_text(entries: &HashMap<String, serde_json::Value>) -> (text: Result<
    String,
    serde_json::Error,
>)
    ensures
        json_text_len(entries@) == match text {
            Ok(s) => Some(s@.len()),
            Err(_) => None,
        },
{
    serde_json::to_string(entries)
}

/// The cost in characters of a serialization outcome: the length of the text,
/// and nothing for an outcome that is an error.
pub open spec fn text_cost(len: Option<nat>) -> nat {
    match len {
        Some(n) => n,
        None => 0,
    }
}

/// Counts the characters of a serialization outcome; a failed serialization
/// counts as none.
pub fn serialized_chars(text: &Result<String, serde_json::Error>) -> (n: usize)
    ensures
        n == match text {
            Ok(s) => s@.len(),
            Err(_) => 0,
        },
{
    match text {
        Ok(s) => s.as_str().unicode_len(),
        Err(_) => 0,
    }
}

/// Counts the characters of the JSON text of an object.
pub fn object_chars(entries: &HashMap<String, serde_json::Value>) -> (n: usize)
    ensures
        n == text_cost(json_text_len(entries@)),
{
    let text = to_json_text(entries);
    serialized_chars(&text)
}

} // verus!
