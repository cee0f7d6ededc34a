//! Regular expressions, compiled and searched by the `regex` crate.

use vstd::prelude::*;

verus! {

/// Lets `regex::Regex` stand in signatures, as a value that is carried
/// through and never looked into.
#[verifier::external_type_specification]
#[verifier::external_body]
pub struct ExRegex(regex::Regex);

/// What compiling `pattern` reports: `None` when it compiles, else the
/// message of the error.
pub uninterp spec fn regex_error(pattern: Seq<char>) -> Option<Seq<char>>;

/// The pattern that a compiled expression was compiled from.
pub uninterp spec fn regex_source(re: regex::Regex) -> Seq<char>;

/// Whether the expression compiled from `pattern` matches anywhere in `text`.
pub uninterp spec fn regex_finds(pattern: Seq<char>, text: Seq<char>) -> bool;

/// Calls `regex::Regex::new`, and `to_string` on its error. Trusted: whether
/// a pattern compiles, and with which message it fails, depends on the
/// pattern alone; the compiled expression remembers its pattern.
#[verifier::external_body]
pub(crate) fn compile(pattern: &str) -> (r: Result<regex::Regex, String>)
    ensures
        match r {
            Ok(re) => regex_error(pattern@) is None && regex_source(re) == pattern@,
            Err(message) => regex_error(pattern@) == Some(message@),
        },
{
    regex::Regex::new(pattern).map_err(|e| e.to_string())
}

/// Calls `regex::Regex::is_match`. Trusted: whether there is a match depends
/// on the pattern of the expression and on the text alone.
#[verifier::external_body]
pub(crate) fn is_match(re: &regex::Regex, text: &str) -> (found: bool)
    ensures
        found == regex_finds(regex_source(*re), text@),
{
    re.is_match(text)
}

} // verus!
