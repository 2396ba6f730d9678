//! The per-domain rate limiter: a minimum spacing between consecutive
//! requests to the same domain. The limiter itself only decides how long
//! a caller must wait and records when the caller will proceed; the
//! suspension happens outside, so pacing one domain never serializes
//! another.

use crate::text::str_eq;
use vstd::pervasive::VecAdditionalExecFns;
use vstd::prelude::*;

verus! {

/// Minimum-spacing state: one "last dispatch" stamp per domain, in
/// milliseconds, plus the configured delay. A delay of zero disables
/// limiting.
#[derive(Debug)]
pub struct RateLimiter {
    delays: Vec<(String, u64)>,
    delay_ms: u64,
}

impl RateLimiter {
    /// The limiter invariant: one stamp per domain.
    pub closed spec fn wf(self) -> bool {
        forall|i: int, j: int|
            0 <= i < j < self.delays@.len() ==> self.delays@[i].0@ != self.delays@[j].0@
    }

    /// The configured minimum spacing, in milliseconds.
    pub closed spec fn delay(self) -> u64 {
        self.delay_ms
    }

    /// The recorded last-dispatch stamp of `domain`, if any.
    pub closed spec fn last_of(self, domain: Seq<char>) -> Option<u64> {
        if exists|i: int| 0 <= i < self.delays@.len() && self.delays@[i].0@ == domain {
            let i = choose|i: int| 0 <= i < self.delays@.len() && self.delays@[i].0@ == domain;
            Some(self.delays@[i].1)
        } else {
            None
        }
    }

    /// The configured minimum spacing, in milliseconds.
    pub fn delay_millis(&self) -> (d: u64)
        ensures
            d == self.delay(),
    {
        self.delay_ms
    }

    /// A fresh limiter with the given spacing and no recorded dispatch.
    pub fn new(delay_ms: u64) -> (r: Self)
        ensures
            r.wf(),
            r.delay() == delay_ms,
            forall|d: Seq<char>| r.last_of(d) is None,
    {
        RateLimiter { delays: Vec::new(), delay_ms }
    }

    /// Paces the caller for `domain` at time `now_ms`: returns how many
    /// milliseconds the caller must still wait before dispatching, and
    /// records the moment the caller will proceed as the domain's new
    /// last-dispatch stamp. With limiting disabled nothing is recorded.
    pub fn wait_for(&mut self, domain: &str, now_ms: u64) -> (wait: u64)
        requires
            old(self).wf(),
            now_ms + old(self).delay() <= u64::MAX,
        ensures
            final(self).wf(),
            final(self).delay() == old(self).delay(),
            wait == required_wait(*old(self), domain@, now_ms),
            old(self).delay() == 0 ==> *final(self) == *old(self),
            old(self).delay() > 0 ==> final(self).last_of(domain@) == Some(
                (now_ms + wait) as u64,
            ),
            old(self).delay() > 0 ==> forall|d: Seq<char>|
                d != domain@ ==> final(self).last_of(d) == old(self).last_of(d),
    {
        if self.delay_ms == 0 {
            return 0;
        }
        let n = self.delays.len();
        let mut found: Option<usize> = None;
        let mut i: usize = 0;
        while i < n
            invariant
                *self == *old(self),
                n == self.delays@.len(),
                i <= n,
                found is None ==> forall|k: int| 0 <= k < i ==> self.delays@[k].0@ != domain@,
                found matches Some(j) ==> j < n && self.delays@[j as int].0@ == domain@,
            decreases n - i,
        {
            if found.is_none() && str_eq(self.delays[i].0.as_str(), domain) {
                found = Some(i);
            }
            i = i + 1;
        }
        let wait: u64 = match found {
            Some(j) => {
                proof {
                    lemma_last_of_present(*self, domain@, j as int);
                }
                let last = self.delays[j].1;
                let elapsed = if now_ms >= last {
                    now_ms - last
                } else {
                    0
                };
                if elapsed < self.delay_ms {
                    self.delay_ms - elapsed
                } else {
                    0
                }
            },
            None => {
                proof {
                    lemma_last_of_missing(*self, domain@);
                }
                0
            },
        };
        let stamp = now_ms + wait;
        match found {
            Some(j) => {
                self.delays.set(j, (domain.to_owned(), stamp));
                proof {
                    assert(self.wf());
                    lemma_last_of_present(*self, domain@, j as int);
                    assert forall|d: Seq<char>| d != domain@ implies self.last_of(d) == old(
                        self,
                    ).last_of(d) by {
                        lemma_other_domains_stable(*old(self), *self, domain@, d);
                    }
                }
            },
            None => {
                self.delays.push((domain.to_owned(), stamp));
                proof {
                    assert forall|a: int, b: int|
                        0 <= a < b < self.delays@.len() implies self.delays@[a].0@
                        != self.delays@[b].0@ by {
                        if b == self.delays@.len() - 1 {
                            assert(self.delays@[a] == old(self).delays@[a]);
                        } else {
                            assert(self.delays@[a] == old(self).delays@[a]);
                            assert(self.delays@[b] == old(self).delays@[b]);
                        }
                    }
                    lemma_last_of_present(*self, domain@, self.delays@.len() - 1);
                    assert forall|d: Seq<char>| d != domain@ implies self.last_of(d) == old(
                        self,
                    ).last_of(d) by {
                        lemma_other_domains_stable(*old(self), *self, domain@, d);
                    }
                }
            },
        }
        wait
    }
}

/// Milliseconds from `last` to `now`, zero when the clock reads earlier
/// than the stamp.
pub open spec fn elapsed_since(last: u64, now: u64) -> u64 {
    if now >= last {
        (now - last) as u64
    } else {
        0
    }
}

/// How long a caller dispatching to `domain` at `now` must still wait:
/// nothing with limiting disabled or no recorded dispatch; otherwise the
/// remainder of the delay not yet elapsed since the domain's stamp.
pub open spec fn required_wait(l: RateLimiter, domain: Seq<char>, now: u64) -> u64 {
    if l.delay() == 0 {
        0
    } else {
        match l.last_of(domain) {
            Some(last) => if elapsed_since(last, now) < l.delay() {
                (l.delay() - elapsed_since(last, now)) as u64
            } else {
                0
            },
            None => 0,
        }
    }
}

/// With one stamp per domain, the entry found by a scan is the recorded
/// stamp.
proof fn lemma_last_of_present(l: RateLimiter, domain: Seq<char>, j: int)
    requires
        l.wf(),
        0 <= j < l.delays@.len(),
        l.delays@[j].0@ == domain,
    ensures
        l.last_of(domain) == Some(l.delays@[j].1),
{
    let k = choose|i: int| 0 <= i < l.delays@.len() && l.delays@[i].0@ == domain;
    if k != j {
        if k < j {
            assert(l.delays@[k].0@ != l.delays@[j].0@);
        } else {
            assert(l.delays@[j].0@ != l.delays@[k].0@);
        }
    }
}

/// A domain no entry names has no recorded stamp.
proof fn lemma_last_of_missing(l: RateLimiter, domain: Seq<char>)
    requires
        forall|k: int| 0 <= k < l.delays@.len() ==> l.delays@[k].0@ != domain,
    ensures
        l.last_of(domain) is None,
{
}

/// An update that only touches entries of `changed` leaves every other
/// domain's stamp as it was.
proof fn lemma_other_domains_stable(
    l1: RateLimiter,
    l2: RateLimiter,
    changed: Seq<char>,
    d: Seq<char>,
)
    requires
        l1.wf(),
        l2.wf(),
        d != changed,
        l2.delays@.len() >= l1.delays@.len(),
        forall|i: int|
            0 <= i < l1.delays@.len() && l1.delays@[i].0@ != changed ==> l2.delays@[i]
                == l1.delays@[i],
        forall|i: int|
            0 <= i < l2.delays@.len() && l2.delays@[i].0@ != changed ==> i < l1.delays@.len()
                && l2.delays@[i] == l1.delays@[i],
    ensures
        l2.last_of(d) == l1.last_of(d),
{
    if exists|i: int| 0 <= i < l1.delays@.len() && l1.delays@[i].0@ == d {
        let i1 = choose|i: int| 0 <= i < l1.delays@.len() && l1.delays@[i].0@ == d;
        assert(l2.delays@[i1] == l1.delays@[i1]);
        lemma_last_of_present(l1, d, i1);
        lemma_last_of_present(l2, d, i1);
    } else {
        lemma_last_of_missing(l1, d);
        if exists|i: int| 0 <= i < l2.delays@.len() && l2.delays@[i].0@ == d {
            let i2 = choose|i: int| 0 <= i < l2.delays@.len() && l2.delays@[i].0@ == d;
            assert(l2.delays@[i2] == l1.delays@[i2]);
            assert(false);
        }
        lemma_last_of_missing(l2, d);
    }
}

/// Consecutive calls for one domain are spaced by the full delay: when
/// the first call recorded that its caller proceeds at `r1`, a second
/// call at any `t2` within the delay window is told to wait exactly until
/// `r1 + delay`.
pub proof fn lemma_same_domain_spacing(l: RateLimiter, domain: Seq<char>, r1: u64, t2: u64)
    requires
        l.delay() > 0,
        l.last_of(domain) == Some(r1),
        r1 <= t2,
        t2 < r1 + l.delay(),
        r1 + l.delay() <= u64::MAX,
    ensures
        t2 + required_wait(l, domain, t2) == r1 + l.delay(),
{
}

/// Pacing one domain never delays another: after a call for `changed`,
/// which only rewrites that domain's stamp, every other domain's required
/// wait is what it was before.
pub proof fn lemma_distinct_domains_independent(
    l1: RateLimiter,
    l2: RateLimiter,
    changed: Seq<char>,
    d: Seq<char>,
    t: u64,
)
    requires
        d != changed,
        l2.delay() == l1.delay(),
        forall|x: Seq<char>| x != changed ==> l2.last_of(x) == l1.last_of(x),
    ensures
        required_wait(l2, d, t) == required_wait(l1, d, t),
{
    assert(l2.last_of(d) == l1.last_of(d));
}

} // verus!
