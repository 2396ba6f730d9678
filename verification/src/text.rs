//! Verified character-level string utilities: equality, substring search,
//! placeholder replacement and decimal rendering. Detection rules and report
//! rendering are specified in terms of the spec functions defined here.

use vstd::prelude::*;

verus! {

/// The decimal digit character for `d`, for `d < 10`.
pub open spec fn digit_char(d: nat) -> char {
    if d == 0 {
        '0'
    } else if d == 1 {
        '1'
    } else if d == 2 {
        '2'
    } else if d == 3 {
        '3'
    } else if d == 4 {
        '4'
    } else if d == 5 {
        '5'
    } else if d == 6 {
        '6'
    } else if d == 7 {
        '7'
    } else if d == 8 {
        '8'
    } else {
        '9'
    }
}

/// The decimal rendering of `n`, most significant digit first.
pub open spec fn dec_chars(n: nat) -> Seq<char>
    decreases n,
{
    if n < 10 {
        seq![digit_char(n)]
    } else {
        dec_chars(n / 10) + seq![digit_char(n % 10)]
    }
}

/// `p` occurs in `t` starting at position `i`.
pub open spec fn occurs_at(t: Seq<char>, p: Seq<char>, i: int) -> bool {
    0 <= i && i + p.len() <= t.len() && t.subrange(i, i + p.len()) == p
}

/// `p` occurs somewhere in `t` as a contiguous substring.
pub open spec fn has_substring(t: Seq<char>, p: Seq<char>) -> bool {
    exists|i: int| occurs_at(t, p, i)
}

/// `t` with every occurrence of `p`, scanned left to right without overlap,
/// replaced by `r`; `t` unchanged when `p` is empty.
pub open spec fn replace_chars(t: Seq<char>, p: Seq<char>, r: Seq<char>) -> Seq<char>
    decreases t.len(),
{
    if p.len() == 0 || t.len() < p.len() {
        t
    } else if t.subrange(0, p.len() as int) == p {
        r + replace_chars(t.subrange(p.len() as int, t.len() as int), p, r)
    } else {
        seq![t[0]] + replace_chars(t.subrange(1, t.len() as int), p, r)
    }
}

/// Character-for-character equality of two string slices.
pub fn str_eq(a: &str, b: &str) -> (r: bool)
    ensures
        r == (a@ == b@),
{
    let alen: usize = a.unicode_len();
    let blen: usize = b.unicode_len();
    if alen != blen {
        return false;
    }
    let mut i: usize = 0;
    while i < alen
        invariant
            alen == a@.len(),
            blen == b@.len(),
            alen == blen,
            i <= alen,
            forall|j: int| 0 <= j < i ==> a@[j] == b@[j],
        decreases alen - i,
    {
        if a.get_char(i) != b.get_char(i) {
            return false;
        }
        i = i + 1;
    }
    proof {
        assert(a@ =~= b@);
    }
    true
}

/// Whether `p` occurs in `t` at position `i`; `i + p@.len()` must stay
/// within `t`.
pub fn matches_at(t: &str, p: &str, i: usize) -> (r: bool)
    requires
        i + p@.len() <= t@.len(),
        t@.len() <= usize::MAX,
    ensures
        r == occurs_at(t@, p@, i as int),
{
    let plen: usize = p.unicode_len();
    let mut j: usize = 0;
    while j < plen
        invariant
            plen == p@.len(),
            i + plen <= t@.len(),
            t@.len() <= usize::MAX,
            j <= plen,
            forall|k: int| 0 <= k < j ==> t@[i + k] == p@[k],
        decreases plen - j,
    {
        if t.get_char(i + j) != p.get_char(j) {
            proof {
                assert(t@.subrange(i as int, i + p@.len()) != p@) by {
                    assert(t@.subrange(i as int, i + p@.len())[j as int] == t@[i + j]);
                }
            }
            return false;
        }
        j = j + 1;
    }
    proof {
        assert(t@.subrange(i as int, i + p@.len()) =~= p@);
    }
    true
}

/// Whether `p` occurs anywhere in `t`.
pub fn contains_substring(t: &str, p: &str) -> (r: bool)
    ensures
        r == has_substring(t@, p@),
{
    let tlen: usize = t.unicode_len();
    let plen: usize = p.unicode_len();
    if plen > tlen {
        return false;
    }
    if plen == 0 {
        proof {
            assert(occurs_at(t@, p@, 0)) by {
                assert(t@.subrange(0, 0) =~= p@);
            }
        }
        return true;
    }
    let mut i: usize = 0;
    while i <= tlen - plen
        invariant
            tlen == t@.len(),
            plen == p@.len(),
            1 <= plen <= tlen,
            i <= tlen - plen + 1,
            forall|k: int| 0 <= k < i ==> !occurs_at(t@, p@, k),
        decreases tlen - plen - i + 1,
    {
        if matches_at(t, p, i) {
            return true;
        }
        i = i + 1;
    }
    false
}

/// `t` with every occurrence of `p` replaced by `r`, scanning left to right
/// without overlap; `t` unchanged when `p` is empty.
pub fn replace_all(t: &str, p: &str, r: &str) -> (res: String)
    ensures
        res@ == replace_chars(t@, p@, r@),
{
    let tlen: usize = t.unicode_len();
    let plen: usize = p.unicode_len();
    if plen == 0 || tlen < plen {
        return t.to_owned();
    }
    let mut res = String::new();
    let mut i: usize = 0;
    proof {
        assert(t@.subrange(0, tlen as int) =~= t@);
        assert(res@ + replace_chars(t@, p@, r@) =~= replace_chars(t@, p@, r@));
    }
    while i < tlen
        invariant
            tlen == t@.len(),
            plen == p@.len(),
            1 <= plen <= tlen,
            i <= tlen,
            replace_chars(t@, p@, r@) == res@ + replace_chars(
                t@.subrange(i as int, tlen as int),
                p@,
                r@,
            ),
        decreases tlen - i,
    {
        let ghost rem = t@.subrange(i as int, tlen as int);
        if plen <= tlen - i && matches_at(t, p, i) {
            proof {
                assert(rem.subrange(0, plen as int) =~= t@.subrange(i as int, i + plen));
                assert(rem.subrange(plen as int, rem.len() as int) =~= t@.subrange(
                    (i + plen) as int,
                    tlen as int,
                ));
                assert(replace_chars(rem, p@, r@) == r@ + replace_chars(
                    t@.subrange((i + plen) as int, tlen as int),
                    p@,
                    r@,
                ));
            }
            res.append(r);
            i = i + plen;
            proof {
                assert(replace_chars(t@, p@, r@) == res@ + replace_chars(
                    t@.subrange(i as int, tlen as int),
                    p@,
                    r@,
                ));
            }
        } else {
            let c = t.substring_char(i, i + 1);
            proof {
                if rem.len() < plen {
                    assert(replace_chars(rem, p@, r@) == rem);
                    assert(rem =~= seq![t@[i as int]] + t@.subrange(i + 1, tlen as int));
                    assert(t@.subrange(i + 1, tlen as int).len() < plen);
                    assert(replace_chars(t@.subrange(i + 1, tlen as int), p@, r@) == t@.subrange(
                        i + 1,
                        tlen as int,
                    ));
                } else {
                    assert(rem.subrange(0, plen as int) =~= t@.subrange(i as int, i + plen));
                    assert(rem.subrange(0, plen as int) != p@);
                    assert(rem.subrange(1, rem.len() as int) =~= t@.subrange(i + 1, tlen as int));
                    assert(replace_chars(rem, p@, r@) == seq![rem[0]] + replace_chars(
                        t@.subrange(i + 1, tlen as int),
                        p@,
                        r@,
                    ));
                }
                assert(c@ =~= seq![t@[i as int]]);
            }
            res.append(c);
            i = i + 1;
        }
    }
    proof {
        assert(t@.subrange(tlen as int, tlen as int) =~= Seq::<char>::empty());
        assert(replace_chars(Seq::<char>::empty(), p@, r@) =~= Seq::<char>::empty());
        assert(res@ =~= res@ + Seq::<char>::empty());
    }
    res
}

/// One of the ten decimal digit literals, as a string slice.
fn digit_str(d: u64) -> (res: &'static str)
    requires
        d < 10,
    ensures
        res@ == seq![digit_char(d as nat)],
{
    if d == 0 {
        proof {
            reveal_strlit("0");
            assert("0"@ =~= seq![digit_char(0)]);
        }
        "0"
    } else if d == 1 {
        proof {
            reveal_strlit("1");
            assert("1"@ =~= seq![digit_char(1)]);
        }
        "1"
    } else if d == 2 {
        proof {
            reveal_strlit("2");
            assert("2"@ =~= seq![digit_char(2)]);
        }
        "2"
    } else if d == 3 {
        proof {
            reveal_strlit("3");
            assert("3"@ =~= seq![digit_char(3)]);
        }
        "3"
    } else if d == 4 {
        proof {
            reveal_strlit("4");
            assert("4"@ =~= seq![digit_char(4)]);
        }
        "4"
    } else if d == 5 {
        proof {
            reveal_strlit("5");
            assert("5"@ =~= seq![digit_char(5)]);
        }
        "5"
    } else if d == 6 {
        proof {
            reveal_strlit("6");
            assert("6"@ =~= seq![digit_char(6)]);
        }
        "6"
    } else if d == 7 {
        proof {
            reveal_strlit("7");
            assert("7"@ =~= seq![digit_char(7)]);
        }
        "7"
    } else if d == 8 {
        proof {
            reveal_strlit("8");
            assert("8"@ =~= seq![digit_char(8)]);
        }
        "8"
    } else {
        proof {
            reveal_strlit("9");
            assert("9"@ =~= seq![digit_char(9)]);
        }
        "9"
    }
}

/// The views of a sequence of strings.
pub open spec fn view_of(vs: Seq<String>) -> Seq<Seq<char>> {
    vs.map_values(|s: String| s@)
}

/// Whether some element of `vs` holds the characters `x`.
pub open spec fn seq_has(vs: Seq<Seq<char>>, x: Seq<char>) -> bool {
    exists|i: int| 0 <= i < vs.len() && vs[i] == x
}

/// Whether some element of `v` holds the same characters as `s`.
pub fn vec_has_str(v: &Vec<String>, s: &str) -> (r: bool)
    ensures
        r == seq_has(view_of(v@), s@),
{
    let n = v.len();
    let mut i: usize = 0;
    while i < n
        invariant
            n == v@.len(),
            i <= n,
            forall|k: int| 0 <= k < i ==> view_of(v@)[k] != s@,
        decreases n - i,
    {
        if str_eq(v[i].as_str(), s) {
            proof {
                assert(view_of(v@)[i as int] == s@);
            }
            return true;
        }
        proof {
            assert(view_of(v@)[i as int] == v@[i as int]@);
        }
        i = i + 1;
    }
    false
}

/// Drops every string that repeats an earlier one, keeping first
/// occurrences in order: the result has no duplicates and holds exactly
/// the character sequences of the input.
pub fn dedup_strings(v: Vec<String>) -> (r: Vec<String>)
    ensures
        forall|i: int, j: int| 0 <= i < j < r@.len() ==> r@[i]@ != r@[j]@,
        forall|i: int| 0 <= i < r@.len() ==> seq_has(view_of(v@), #[trigger] r@[i]@),
        forall|k: int| 0 <= k < v@.len() ==> seq_has(view_of(r@), #[trigger] v@[k]@),
{
    let n = v.len();
    let mut out: Vec<String> = Vec::new();
    let mut i: usize = 0;
    while i < n
        invariant
            n == v@.len(),
            i <= n,
            forall|a: int, b: int| 0 <= a < b < out@.len() ==> out@[a]@ != out@[b]@,
            forall|a: int| 0 <= a < out@.len() ==> seq_has(view_of(v@), #[trigger] out@[a]@),
            forall|k: int| 0 <= k < i ==> seq_has(view_of(out@), #[trigger] v@[k]@),
        decreases n - i,
    {
        let present = vec_has_str(&out, v[i].as_str());
        if !present {
            let ghost old_out = out@;
            out.push(v[i].clone());
            proof {
                assert(view_of(v@)[i as int] == v@[i as int]@);
                assert(out@[out@.len() - 1]@ == v@[i as int]@);
                assert(forall|a: int|
                    0 <= a < old_out.len() ==> out@[a]@ == #[trigger] old_out[a]@);
                assert forall|a: int, b: int| 0 <= a < b < out@.len() implies out@[a]@
                    != out@[b]@ by {
                    if b == out@.len() - 1 {
                        assert(view_of(old_out)[a] == old_out[a]@);
                    }
                }
                assert forall|k: int| 0 <= k < i + 1 implies seq_has(
                    view_of(out@),
                    #[trigger] v@[k]@,
                ) by {
                    if k < i {
                        let w = choose|w: int|
                            0 <= w < old_out.len() && view_of(old_out)[w] == v@[k]@;
                        assert(view_of(out@)[w] == v@[k]@);
                    } else {
                        assert(view_of(out@)[out@.len() - 1] == v@[i as int]@);
                    }
                }
            }
        } else {
            proof {
                assert(view_of(v@)[i as int] == v@[i as int]@);
            }
        }
        i = i + 1;
    }
    out
}

/// The lowercase form of a string, as str::to_lowercase computes it; a
/// function of the characters alone.
pub uninterp spec fn lower_of(s: Seq<char>) -> Seq<char>;

/// The uppercase form of a string, as str::to_uppercase computes it; a
/// function of the characters alone.
pub uninterp spec fn upper_of(s: Seq<char>) -> Seq<char>;

/// Relies on str::to_lowercase: the result depends on the characters
/// alone.
#[verifier::external_body]
pub fn to_lowercase(s: &str) -> (r: String)
    ensures
        r@ == lower_of(s@),
{
    s.to_lowercase()
}

/// Relies on str::to_uppercase: the result depends on the characters
/// alone.
#[verifier::external_body]
pub fn to_uppercase(s: &str) -> (r: String)
    ensures
        r@ == upper_of(s@),
{
    s.to_uppercase()
}

/// The decimal rendering of `n` as a `String`.
pub fn u64_to_dec(n: u64) -> (res: String)
    ensures
        res@ == dec_chars(n as nat),
    decreases n,
{
    if n < 10 {
        let s = digit_str(n);
        s.to_owned()
    } else {
        let mut res = u64_to_dec(n / 10);
        res.append(digit_str(n % 10));
        res
    }
}

} // verus!
