//! The identifier-variation generator: the fixed family of spellings a
//! run can try besides the identifier itself, with duplicates dropped.

use crate::text::lower_of;
use crate::text::replace_all;
use crate::text::replace_chars;
use crate::text::seq_has;
use crate::text::to_lowercase;
use crate::text::to_uppercase;
use crate::text::upper_of;
use crate::text::view_of;
use crate::text::dedup_strings;
use vstd::prelude::*;

verus! {

/// The candidate spellings derived from `u`, in the order they are
/// built: the identifier itself, underscore and dash affixes, separator
/// swaps, common numeric suffixes and prefixes, and the two case folds.
pub open spec fn variation_candidates(u: Seq<char>) -> Seq<Seq<char>> {
    seq![
        u,
        "_"@ + u,
        u + "_"@,
        replace_chars(u, "_"@, "."@),
        replace_chars(u, "-"@, "."@),
        replace_chars(u, "."@, "_"@),
        replace_chars(u, "-"@, "_"@),
        "-"@ + u,
        u + "-"@,
        u + "1"@,
        u + "12"@,
        u + "123"@,
        u + "0"@,
        "the_"@ + u,
        "_"@ + u,
        "real_"@ + u,
        lower_of(u),
        upper_of(u),
    ]
}

/// Every candidate spelling of `username`, first occurrences kept, later
/// duplicates dropped: the result holds exactly the candidate set, with
/// no spelling repeated.
pub fn generate_variations(username: &str) -> (r: Vec<String>)
    ensures
        forall|i: int, j: int| 0 <= i < j < r@.len() ==> r@[i]@ != r@[j]@,
        forall|i: int|
            0 <= i < r@.len() ==> seq_has(variation_candidates(username@), #[trigger] r@[i]@),
        forall|k: int|
            0 <= k < variation_candidates(username@).len() ==> seq_has(
                view_of(r@),
                #[trigger] variation_candidates(username@)[k],
            ),
{
    let mut cands: Vec<String> = Vec::new();
    cands.push(username.to_owned());
    let mut v1 = "_".to_owned();
    v1.append(username);
    cands.push(v1);
    let mut v2 = username.to_owned();
    v2.append("_");
    cands.push(v2);
    cands.push(replace_all(username, "_", "."));
    cands.push(replace_all(username, "-", "."));
    cands.push(replace_all(username, ".", "_"));
    cands.push(replace_all(username, "-", "_"));
    let mut v3 = "-".to_owned();
    v3.append(username);
    cands.push(v3);
    let mut v4 = username.to_owned();
    v4.append("-");
    cands.push(v4);
    let mut v5 = username.to_owned();
    v5.append("1");
    cands.push(v5);
    let mut v6 = username.to_owned();
    v6.append("12");
    cands.push(v6);
    let mut v7 = username.to_owned();
    v7.append("123");
    cands.push(v7);
    let mut v8 = username.to_owned();
    v8.append("0");
    cands.push(v8);
    let mut v9 = "the_".to_owned();
    v9.append(username);
    cands.push(v9);
    let mut v10 = "_".to_owned();
    v10.append(username);
    cands.push(v10);
    let mut v11 = "real_".to_owned();
    v11.append(username);
    cands.push(v11);
    cands.push(to_lowercase(username));
    cands.push(to_uppercase(username));
    proof {
        assert(view_of(cands@) =~= variation_candidates(username@));
    }
    let out = dedup_strings(cands);
    proof {
        assert forall|i: int| 0 <= i < out@.len() implies seq_has(
            variation_candidates(username@),
            #[trigger] out@[i]@,
        ) by {
            let w = choose|w: int| 0 <= w < cands@.len() && view_of(cands@)[w] == out@[i]@;
            assert(variation_candidates(username@)[w] == out@[i]@);
        }
        assert forall|k: int| 0 <= k < variation_candidates(username@).len() implies seq_has(
            view_of(out@),
            #[trigger] variation_candidates(username@)[k],
        ) by {
            assert(view_of(cands@)[k] == cands@[k]@);
            assert(seq_has(view_of(out@), cands@[k]@));
        }
    }
    out
}

} // verus!
