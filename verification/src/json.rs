//! JSON documents, read by `serde_json`.
//!
//! Nothing in this file is proved: each contract states what the library
//! expects of `serde_json`.

use vstd::prelude::*;

verus! {

#[verifier::external_type_specification]
#[verifier::external_body]
pub struct ExJsonValue(serde_json::Value);

/// The strings that a JSON document holds, each under the JSON Pointer that
/// leads to it.
pub uninterp spec fn json_strings(doc: serde_json::Value) -> Map<Seq<char>, Seq<char>>;

/// What `serde_json::from_str` makes of a text: the strings of the document
/// by their JSON Pointers, or, where the text is no JSON document, what
/// `serde_json` says is wrong with it.
pub uninterp spec fn json_text_strings(text: Seq<char>) -> Result<
    Map<Seq<char>, Seq<char>>,
    Seq<char>,
>;

/// `serde_json::from_str` to a `serde_json::Value`. Whether a text parses,
/// to which document, and with which complaint where it does not, depends on
/// the text alone.
#[verifier::external_body]
pub(crate) fn parse_json(text: &str) -> (r: Result<serde_json::Value, String>)
    ensures
        match r {
            Ok(doc) => json_text_strings(text@) == Ok::<_, Seq<char>>(json_strings(doc)),
            Err(complaint) => json_text_strings(text@) == Err::<Map<Seq<char>, Seq<char>>, _>(
                complaint@,
            ),
        },
{
    match serde_json::from_str::<serde_json::Value>(text) {
        Ok(doc) => Ok(doc),
        Err(e) => Err(e.to_string()),
    }
}

/// `serde_json::Value::pointer`: the string that the document holds under
/// `pointer`; `None` where the pointer leads nowhere or to something else
/// than a string.
#[verifier::external_body]
pub(crate) fn json_string_at(doc: &serde_json::Value, pointer: &str) -> (r: Option<String>)
    ensures
        match r {
            Some(s) => json_strings(*doc).contains_key(pointer@) && json_strings(*doc)[pointer@]
                == s@,
            None => !json_strings(*doc).contains_key(pointer@),
        },
{
    match doc.pointer(pointer) {
        Some(serde_json::Value::String(s)) => Some(s.clone()),
        _ => None,
    }
}

} // verus!
