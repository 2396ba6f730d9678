//! Identifier validation against a site's pattern, through the `regex`
//! crate. Whether a pattern compiles, and whether it matches a text, are
//! functions of the two strings alone; both get a name here, and the rest
//! of the library speaks of those names.

use vstd::prelude::*;

verus! {

/// Whether `regex::Regex::new` accepts `pat` as a pattern.
pub uninterp spec fn regex_parses(pat: Seq<char>) -> bool;

/// Whether the pattern `pat` matches anywhere in `text`.
pub uninterp spec fn regex_match(pat: Seq<char>, text: Seq<char>) -> bool;

/// Relies on regex::Regex::new (`None` exactly when the pattern is refused)
/// and regex::Regex::is_match (true iff the pattern matches anywhere in the
/// text); both results depend on the two strings alone.
#[verifier::external_body]
pub(crate) fn regex_is_match(pat: &str, text: &str) -> (r: Option<bool>)
    ensures
        r is Some <==> regex_parses(pat@),
        r matches Some(b) ==> b == regex_match(pat@, text@),
{
    match regex::Regex::new(pat) {
        Ok(re) => Some(re.is_match(text)),
        Err(_) => None,
    }
}

} // verus!
