//! JSON string literals, as written by `serde_json`.

use vstd::prelude::*;

verus! {

/// The JSON string literal that `serde_json` writes for the text `s`: the
/// text between double quotes, with the characters that JSON does not take
/// as they are replaced by escape sequences.
pub uninterp spec fn json_string(s: Seq<char>) -> Seq<char>;

/// The characters that `serde_json` escapes inside a string literal: the
/// double quote, the backslash and the control characters below U+0020.
pub open spec fn needs_escape(c: char) -> bool {
    c == '"' || c == '\\' || (c as u32) < 0x20
}

/// A text none of whose characters is escaped.
pub open spec fn is_plain(s: Seq<char>) -> bool {
    forall|i: int| 0 <= i < s.len() ==> !needs_escape(#[trigger] s[i])
}

/// The text between two double quotes.
pub open spec fn quoted(s: Seq<char>) -> Seq<char> {
    seq!['"'] + s + seq!['"']
}

/// Writes `text` as a JSON string literal, by the `Display` impl of
/// `serde_json::Value` on `Value::String`.
///
/// Trusted: the result is a function of the text alone, and a text without
/// double quote, backslash or control character comes back unchanged between
/// two double quotes. How the other texts are escaped is not stated.
#[verifier::external_body]
pub(crate) fn encode_string(text: &str) -> (out: String)
    ensures
        out@ == json_string(text@),
        is_plain(text@) ==> out@ == quoted(text@),
{
    serde_json::Value::String(text.to_owned()).to_string()
}

} // verus!
