//! Lists of strings as JSON text.
use vstd::prelude::*;

verus! {

/// The error of the JSON library. What it holds is not looked into.
#[verifier::external_type_specification]
#[verifier::external_body]
pub struct ExJsonError(serde_json::Error);

/// The text that `serde_json::to_string` writes for a list of strings.
pub uninterp spec fn json_text(strings: Seq<Seq<char>>) -> Seq<char>;

/// The list that `serde_json::from_str` reads from a text, if the text is a JSON array of strings.
pub uninterp spec fn json_strings(text: Seq<char>) -> Option<Seq<Seq<char>>>;

/// The text of a list is not empty, and the list is read back from it.
pub open spec fn reads_back(strings: Seq<Seq<char>>) -> bool {
    json_text(strings).len() > 0 && json_strings(json_text(strings)) == Some(strings)
}

/// `serde_json::to_string` on a list of strings.
///
/// The contract claims that writing succeeds, since neither a list nor a string refuses to be
/// written and the text is gathered in memory; that the text depends on the list alone; that it
/// is not empty, an array having its brackets; and that `serde_json::from_str` reads the same
/// list back from it.
#[verifier::external_body]
pub(crate) fn json_from_strings(strings: &Vec<String>) -> (text: Result<String, serde_json::Error>)
    ensures
        text is Ok,
        text->Ok_0@ == json_text(crate::text::texts(strings@)),
        text->Ok_0@.len() > 0,
        json_strings(text->Ok_0@) == Some(crate::text::texts(strings@)),
{
    serde_json::to_string(strings)
}

/// `serde_json::from_str` into a list of strings.
///
/// The contract claims that whether a list comes out, and which, depends on the text alone. What
/// the error tells of a text that holds no list is left open.
#[verifier::external_body]
pub(crate) fn strings_from_json(text: &str) -> (strings: Result<Vec<String>, serde_json::Error>)
    ensures
        match strings {
            Ok(strings) => json_strings(text@) == Some(crate::text::texts(strings@)),
            Err(_) => json_strings(text@) is None,
        },
{
    serde_json::from_str(text)
}

} // verus!
