//! JSON string encoding. The encoding itself is done by `serde_json`; its
//! result is named by an uninterpreted spec function so that every response
//! body can be pinned down exactly in contracts.

use vstd::prelude::*;

verus! {

/// The JSON string literal (opening quote, escaped characters, closing
/// quote) that encodes exactly the given characters.
pub uninterp spec fn json_encoded_str(s: Seq<char>) -> Seq<char>;

/// Holds when no character of `s` needs escaping inside a JSON string
/// literal: no '"', no '\', no control character.
pub open spec fn json_plain(s: Seq<char>) -> bool {
    forall|i: int| 0 <= i < s.len() ==> s[i] != '"' && s[i] != '\\' && s[i] as int >= 32
}

/// Relies on serde_json::to_string for &str: it returns the JSON string
/// literal for exactly the given characters, escaping only '"', '\' and
/// control characters, and it cannot fail for a string value.
#[verifier::external_body]
pub(crate) fn json_quote(s: &str) -> (r: String)
    ensures
        r@ == json_encoded_str(s@),
        json_plain(s@) ==> r@ == seq!['"'] + s@ + seq!['"'],
{
    serde_json::to_string(s).unwrap_or_default()
}

} // verus!
