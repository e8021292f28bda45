//! Wrappers around the outside crates and the std case mappings that the
//! library's logic calls. Each result that is a pure function of the input is
//! given a name by an uninterpreted spec function, and the wrapper's contract
//! ties the call to that name.

use base64::Engine;
use vstd::prelude::*;

verus! {

/// What `str::to_uppercase` returns for a given character sequence.
pub uninterp spec fn uppercased(s: Seq<char>) -> Seq<char>;

/// Relies on str::to_uppercase: the Unicode uppercase mapping of the string,
/// a function of its characters alone.
#[verifier::external_body]
pub(crate) fn to_upper(s: &str) -> (r: String)
    ensures
        r@ == uppercased(s@),
{
    s.to_uppercase()
}

/// What `str::to_lowercase` returns for a given character sequence.
pub uninterp spec fn lowercased(s: Seq<char>) -> Seq<char>;

/// Relies on str::to_lowercase: the Unicode lowercase mapping of the string,
/// a function of its characters alone.
#[verifier::external_body]
pub(crate) fn to_lower(s: &str) -> (r: String)
    ensures
        r@ == lowercased(s@),
{
    s.to_lowercase()
}

/// What `urlencoding::decode` returns for a given character sequence: the
/// percent-decoded text, or nothing when the decoded bytes are not UTF-8.
pub uninterp spec fn percent_decoded(s: Seq<char>) -> Option<Seq<char>>;

/// Relies on urlencoding::decode: percent sequences are replaced by the bytes
/// they name and the result is read back as UTF-8; the outcome is a function
/// of the input characters alone.
#[verifier::external_body]
pub(crate) fn percent_decode(s: &str) -> (r: Option<String>)
    ensures
        r matches Some(x) ==> percent_decoded(s@) == Some(x@),
        r is None ==> percent_decoded(s@) is None,
{
    match urlencoding::decode(s) {
        Ok(c) => Some(c.into_owned()),
        Err(_) => None,
    }
}

/// What the standard base64 alphabet decodes a given character sequence to,
/// or nothing when the input is not valid base64.
pub uninterp spec fn base64_decoded(s: Seq<char>) -> Option<Seq<u8>>;

/// Relies on base64's general-purpose STANDARD engine: decoding is a function
/// of the input characters alone. On malformed input the decoder's own
/// message is handed back.
#[verifier::external_body]
pub(crate) fn base64_decode(s: &str) -> (r: Result<Vec<u8>, String>)
    ensures
        r matches Ok(v) ==> base64_decoded(s@) == Some(v@),
        r is Err ==> base64_decoded(s@) is None,
{
    match base64::engine::general_purpose::STANDARD.decode(s) {
        Ok(v) => Ok(v),
        Err(e) => Err(e.to_string()),
    }
}

/// The indented re-serialization of a string that parses as JSON, or nothing
/// when it does not parse.
pub uninterp spec fn json_prettified(s: Seq<char>) -> Option<Seq<char>>;

/// Relies on serde_json::from_str and serde_json::to_string_pretty: a string
/// that parses as a JSON value is re-serialized with indentation, and the
/// outcome is a function of the input characters alone.
#[verifier::external_body]
pub(crate) fn json_pretty(s: &str) -> (r: Option<String>)
    ensures
        r matches Some(q) ==> json_prettified(s@) == Some(q@),
        r is None ==> json_prettified(s@) is None,
{
    match serde_json::from_str::<serde_json::Value>(s) {
        Ok(v) => serde_json::to_string_pretty(&v).ok(),
        Err(_) => None,
    }
}

} // verus!
