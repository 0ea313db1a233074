//! Strings as JSON string literals.

use crate::json::string_value;
use vstd::prelude::*;

verus! {

/// The JSON string literal that `serde_json` writes for the string `s`.
pub uninterp spec fn json_string_text(s: Seq<char>) -> Seq<char>;

/// Writes `s` as a JSON string literal.
///
/// The work is done by `serde_json`: the string is put into a
/// `serde_json::Value::String`, and the `Display` of `Value` writes it out in
/// compact form. Nothing here is proved. The contract claims that what comes
/// back depends on the characters of `s` alone, and that it is a string
/// literal which denotes `s`: `serde_json` opens and closes it with a quote,
/// writes a quote, a backslash and each character below U+0020 as an escape
/// (`\"`, `\\`, `\b`, `\t`, `\n`, `\f`, `\r`, or `\u00` and two hexadecimal
/// digits), and every other character as itself.
#[verifier::external_body]
pub(crate) fn string_literal(s: &str) -> (literal: String)
    ensures
        literal@ == json_string_text(s@),
        string_value(literal@) == Some(s@),
{
    serde_json::Value::String(String::from(s)).to_string()
}

} // verus!
