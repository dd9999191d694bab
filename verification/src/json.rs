//! JSON encoding of scalar values, delegated to `serde_json`.
//!
//! Nothing in this file is proved: each function states what `serde_json`
//! is trusted to return.

use vstd::prelude::*;
use crate::text::{decimal_digits, is_one_line};

verus! {

/// The JSON string literal that `serde_json::to_string` writes for the text
/// `s`: `s` between double quotes, with the characters that JSON reserves
/// written as escape sequences.
pub uninterp spec fn json_string_text(s: Seq<char>) -> Seq<char>;

/// Calls `serde_json::to_string` on a string slice.
///
/// Trusted: the call succeeds on every string, since the encoder writes into
/// memory and a string holds neither a map nor a fallible `Serialize`; its
/// result is the literal named by [`json_string_text`]; and that literal is
/// one line, since line feeds and carriage returns are among the characters
/// written as escape sequences.
#[verifier::external_body]
pub(crate) fn json_string(s: &str) -> (text: String)
    ensures
        text@ == json_string_text(s@),
        is_one_line(text@),
{
    serde_json::to_string(s).unwrap_or_default()
}

/// Calls `serde_json::to_string` on an unsigned integer.
///
/// Trusted: the call succeeds on every integer, and its result is the
/// integer in decimal notation, without sign, separators or leading zeros.
#[verifier::external_body]
pub(crate) fn json_number(n: u128) -> (text: String)
    ensures
        text@ == decimal_digits(n as nat),
{
    serde_json::to_string(&n).unwrap_or_default()
}

} // verus!
