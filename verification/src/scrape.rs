//! Email extraction from fetched profile pages: the address pattern is
//! matched through the `regex` crate, matches are lowercased, duplicates
//! dropped. Fetching the pages lives outside the library.

use crate::pattern::regex_parses;
use crate::text::dedup_strings;
use crate::text::lower_of;
use crate::text::seq_has;
use crate::text::to_lowercase;
use crate::text::view_of;
use vstd::prelude::*;

verus! {

/// The successive non-overlapping matches of a pattern in a text, as
/// regex::Regex::find_iter yields them; a function of the two strings
/// alone.
pub uninterp spec fn regex_matches_of(pat: Seq<char>, text: Seq<char>) -> Seq<Seq<char>>;

/// Relies on regex::Regex::new and regex::Regex::find_iter: the matches
/// of the pattern in the text, in order; an unparseable pattern yields
/// nothing.
#[verifier::external_body]
fn regex_find_all(pat: &str, text: &str) -> (r: Vec<String>)
    ensures
        regex_parses(pat@) ==> view_of(r@) == regex_matches_of(pat@, text@),
        !regex_parses(pat@) ==> r@.len() == 0,
{
    match regex::Regex::new(pat) {
        Ok(re) => re.find_iter(text).map(|m| m.as_str().to_string()).collect(),
        Err(_) => Vec::new(),
    }
}

/// The pattern an email address must match to be harvested.
pub open spec fn email_pattern() -> Seq<char> {
    r"[a-zA-Z0-9._%+-]+@[a-zA-Z0-9.-]+\.[a-zA-Z]{2,}"@
}

/// The lowercase forms of the email-pattern matches in `text`.
pub open spec fn lowered_matches(text: Seq<char>) -> Seq<Seq<char>> {
    regex_matches_of(email_pattern(), text).map_values(|m: Seq<char>| lower_of(m))
}

/// Every email address found in `text`, lowercased, first occurrences
/// kept and later duplicates dropped.
pub fn extract_emails(text: &str) -> (r: Vec<String>)
    ensures
        forall|i: int, j: int| 0 <= i < j < r@.len() ==> r@[i]@ != r@[j]@,
        regex_parses(email_pattern()) ==> forall|i: int|
            0 <= i < r@.len() ==> seq_has(lowered_matches(text@), #[trigger] r@[i]@),
        regex_parses(email_pattern()) ==> forall|k: int|
            0 <= k < lowered_matches(text@).len() ==> seq_has(
                view_of(r@),
                #[trigger] lowered_matches(text@)[k],
            ),
        !regex_parses(email_pattern()) ==> r@.len() == 0,
{
    let found = regex_find_all(r"[a-zA-Z0-9._%+-]+@[a-zA-Z0-9.-]+\.[a-zA-Z]{2,}", text);
    let n = found.len();
    let mut lowered: Vec<String> = Vec::new();
    let mut i: usize = 0;
    while i < n
        invariant
            n == found@.len(),
            i <= n,
            lowered@.len() == i,
            forall|k: int| 0 <= k < i ==> #[trigger] lowered@[k]@ == lower_of(found@[k]@),
        decreases n - i,
    {
        lowered.push(to_lowercase(found[i].as_str()));
        i = i + 1;
    }
    let out = dedup_strings(lowered);
    proof {
        if regex_parses(email_pattern()) {
            assert(view_of(found@) == regex_matches_of(email_pattern(), text@));
            assert(view_of(lowered@) =~= lowered_matches(text@)) by {
                assert forall|k: int| 0 <= k < found@.len() implies view_of(lowered@)[k]
                    == lowered_matches(text@)[k] by {
                    assert(view_of(found@)[k] == found@[k]@);
                    assert(lowered@[k]@ == lower_of(found@[k]@));
                }
            }
            assert forall|i2: int| 0 <= i2 < out@.len() implies seq_has(
                lowered_matches(text@),
                #[trigger] out@[i2]@,
            ) by {
                let w = choose|w: int|
                    0 <= w < lowered@.len() && view_of(lowered@)[w] == out@[i2]@;
                assert(lowered_matches(text@)[w] == out@[i2]@);
            }
            assert forall|k: int| 0 <= k < lowered_matches(text@).len() implies seq_has(
                view_of(out@),
                #[trigger] lowered_matches(text@)[k],
            ) by {
                assert(view_of(lowered@)[k] == lowered@[k]@);
                assert(seq_has(view_of(out@), lowered@[k]@));
            }
        } else {
            assert(found@.len() == 0);
            assert(lowered@.len() == 0);
            assert(out@.len() == 0) by {
                if out@.len() > 0 {
                    assert(seq_has(view_of(lowered@), out@[0]@));
                }
            }
        }
    }
    out
}

} // verus!
