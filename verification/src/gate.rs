//! The concurrency ceiling: a counter of permits with a fixed upper
//! bound. A probe runs only while it holds a permit, so the number of
//! probes in flight at any instant stays under the configured limit.

use vstd::prelude::*;

verus! {

/// Tracks how many probes are in flight against a fixed ceiling.
#[derive(Debug, Clone, Copy)]
pub struct ConcurrencyGate {
    pub limit: usize,
    pub in_flight: usize,
}

impl ConcurrencyGate {
    /// The counter invariant: the ceiling is in range and never exceeded.
    pub open spec fn inv(self) -> bool {
        &&& 1 <= self.limit <= 100
        &&& self.in_flight <= self.limit
    }

    /// A fresh counter with ceiling `limit`; refused when the ceiling is
    /// out of its allowed range.
    pub fn new(limit: usize) -> (g: Option<ConcurrencyGate>)
        ensures
            g is Some <==> 1 <= limit <= 100,
            g matches Some(x) ==> x.inv() && x.limit == limit && x.in_flight == 0,
    {
        if 1 <= limit && limit <= 100 {
            Some(ConcurrencyGate { limit, in_flight: 0 })
        } else {
            None
        }
    }

    /// Takes a permit when one is free; changes nothing otherwise.
    pub fn try_acquire(&mut self) -> (ok: bool)
        requires
            old(self).inv(),
        ensures
            final(self).inv(),
            final(self).limit == old(self).limit,
            ok == (old(self).in_flight < old(self).limit),
            ok ==> final(self).in_flight == old(self).in_flight + 1,
            !ok ==> final(self).in_flight == old(self).in_flight,
    {
        if self.in_flight < self.limit {
            self.in_flight = self.in_flight + 1;
            true
        } else {
            false
        }
    }

    /// Returns a held permit.
    pub fn release(&mut self)
        requires
            old(self).inv(),
            old(self).in_flight >= 1,
        ensures
            final(self).inv(),
            final(self).limit == old(self).limit,
            final(self).in_flight == old(self).in_flight - 1,
    {
        self.in_flight = self.in_flight - 1;
    }

    /// How many probes hold a permit now.
    pub fn in_flight(&self) -> (n: usize)
        ensures
            n == self.in_flight,
    {
        self.in_flight
    }
}

/// The concurrency ceiling is never exceeded: in every reachable state
/// (`new` establishes `inv`; `try_acquire` and `release` preserve it)
/// the number of in-flight probes stays at or under the configured
/// limit.
pub proof fn lemma_gate_ceiling(g: ConcurrencyGate)
    requires
        g.inv(),
    ensures
        g.in_flight <= g.limit,
{
}

} // verus!
