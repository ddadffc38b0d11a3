//! The two places where outside crates do work for the library: JSON parsing
//! and the platform's notion of the user's home directory.

use vstd::prelude::*;

verus! {

/// What parsing a text as JSON and writing the parsed value back out yields:
/// nothing when the text is not valid JSON, and otherwise the value's
/// canonical rendering. Both steps depend on the text alone.
pub uninterp spec fn json_reparse(s: Seq<char>) -> Option<Seq<char>>;

/// Relies on serde_json::from_str for parsing and on the Display of
/// serde_json::Value for writing the parsed value back out; each is a pure
/// function of the text.
#[verifier::external_body]
pub fn reparse_json(text: &str) -> (r: Option<String>)
    ensures
        r is Some <==> json_reparse(text@) is Some,
        r matches Some(c) ==> json_reparse(text@) == Some(c@),
{
    match serde_json::from_str::<serde_json::Value>(text) {
        Ok(v) => Some(v.to_string()),
        Err(_) => None,
    }
}

/// Relies on home::home_dir: the platform's canonical user-home directory,
/// if one is known. The answer depends on the process environment, so
/// nothing is promised of it; a path that is not valid Unicode counts as
/// unknown.
#[verifier::external_body]
pub fn user_home_dir() -> (r: Option<String>)
{
    match home::home_dir() {
        Some(p) => match p.to_str() {
            Some(s) => Some(s.to_string()),
            None => None,
        },
        None => None,
    }
}

} // verus!
