//! Reading string fields out of JSON documents.
//!
//! Parsing is done by `serde_json`; the library only ever needs the string
//! found under a JSON pointer (RFC 6901, such as `/a/b` for key `b` of the
//! object under key `a`), so that is what the parser hands back.

use vstd::prelude::*;

verus! {

/// What `serde_json` reports for `text`: `Err(message)` when `text` is not a
/// JSON document, else `Ok(Some(s))` when `Value::pointer` with `pointer`
/// reaches the string `s`, and `Ok(None)` when it reaches nothing or a value
/// that is not a string.
pub uninterp spec fn json_string_at(text: Seq<char>, pointer: Seq<char>) -> Result<
    Option<Seq<char>>,
    Seq<char>,
>;

/// The view of a lookup result, as `json_string_at` speaks of it.
pub open spec fn lookup_view(r: Result<Option<String>, String>) -> Result<
    Option<Seq<char>>,
    Seq<char>,
> {
    match r {
        Ok(Some(s)) => Ok(Some(s@)),
        Ok(None) => Ok(None),
        Err(e) => Err(e@),
    }
}

/// Parses `text` with `serde_json::from_str::<serde_json::Value>` and looks
/// `pointer` up with `Value::pointer`, ending with `Value::as_str`; a parse
/// failure is reported with the parser's error message (`serde_json::Error`'s
/// `Display`). The contract only names the outcome: it is a function of
/// `text` and `pointer`.
#[verifier::external_body]
pub(crate) fn lookup_json_string(text: &str, pointer: &str) -> (r: Result<Option<String>, String>)
    ensures
        lookup_view(r) == json_string_at(text@, pointer@),
{
    let root: serde_json::Value = serde_json::from_str(text).map_err(|e| e.to_string())?;
    Ok(root.pointer(pointer).and_then(|v| v.as_str()).map(|s| s.to_string()))
}

} // verus!
