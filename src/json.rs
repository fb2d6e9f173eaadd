//! Reading JSON documents through `serde_json`.
use vstd::prelude::*;
use crate::opt_view;

verus! {

/// What reading the string member `key` of the JSON document `text` gives:
/// the parser's message where `text` is no JSON document; else the member's
/// contents where the document is an object whose member `key` is a string;
/// else None.
pub uninterp spec fn json_string_member(text: Seq<char>, key: Seq<char>) -> Result<
    Option<Seq<char>>,
    Seq<char>,
>;

/// Relies on `serde_json::from_str` (parsing `text` into a
/// `serde_json::Value`, the error rendered by its `Display`), then
/// `Value::get` and `Value::as_str` to read the string member `key`. The
/// result depends on `text` and `key` alone.
#[verifier::external_body]
fn read_string_member(text: &str, key: &str) -> (r: Result<Option<String>, String>)
    ensures
        match r {
            Ok(m) => json_string_member(text@, key@) == Ok::<Option<Seq<char>>, Seq<char>>(
                opt_view(m),
            ),
            Err(e) => json_string_member(text@, key@) == Err::<Option<Seq<char>>, Seq<char>>(e@),
        },
{
    match serde_json::from_str::<serde_json::Value>(text) {
        Ok(v) => Ok(v.get(key).and_then(|m| m.as_str()).map(|s| s.to_owned())),
        Err(e) => Err(e.to_string()),
    }
}

/// Parses `text` and reads its string member `key`: Err with the parser's
/// message where `text` is no JSON document, else the member if it exists
/// and is a string.
pub fn string_member_of_document(text: &str, key: &str) -> (r: Result<Option<String>, String>)
    ensures
        match r {
            Ok(m) => json_string_member(text@, key@) == Ok::<Option<Seq<char>>, Seq<char>>(
                opt_view(m),
            ),
            Err(e) => json_string_member(text@, key@) == Err::<Option<Seq<char>>, Seq<char>>(e@),
        },
{
    read_string_member(text, key)
}

} // verus!
