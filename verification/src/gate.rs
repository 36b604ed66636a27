//! The concurrency gate: a pool of permits that bounds how many workers run
//! at the same time.

use vstd::prelude::*;

verus! {

/// A counting pool of permits.
pub struct ConcurrencyGate {
    permits: usize,
    in_use: usize,
}

impl ConcurrencyGate {
    /// The size of the pool.
    pub closed spec fn permits(&self) -> nat {
        self.permits as nat
    }

    /// The number of permits that are handed out.
    pub closed spec fn in_use(&self) -> nat {
        self.in_use as nat
    }

    /// The pool holds at least one permit and never hands out more than it
    /// holds.
    pub open spec fn wf(&self) -> bool {
        1 <= self.permits() && self.in_use() <= self.permits()
    }

    /// A pool of `permits` permits, none of them handed out.
    pub fn new(permits: usize) -> (gate: ConcurrencyGate)
        requires
            permits >= 1,
        ensures
            gate.wf(),
            gate.permits() == permits,
            gate.in_use() == 0,
    {
        ConcurrencyGate { permits, in_use: 0 }
    }

    /// The size of the pool.
    pub fn capacity(&self) -> (permits: usize)
        ensures
            permits == self.permits(),
    {
        self.permits
    }

    /// The number of permits that are handed out.
    pub fn held(&self) -> (in_use: usize)
        ensures
            in_use == self.in_use(),
    {
        self.in_use
    }

    /// The number of permits that can still be handed out.
    pub fn available(&self) -> (free: usize)
        requires
            self.wf(),
        ensures
            free == self.permits() - self.in_use(),
    {
        self.permits - self.in_use
    }

    /// Hands out a permit if one is left.
    pub fn try_acquire(&mut self) -> (acquired: bool)
        requires
            old(self).wf(),
        ensures
            final(self).wf(),
            final(self).permits() == old(self).permits(),
            acquired == (old(self).in_use() < old(self).permits()),
            final(self).in_use() == old(self).in_use() + if acquired {
                1nat
            } else {
                0nat
            },
    {
        if self.in_use < self.permits {
            self.in_use = self.in_use + 1;
            true
        } else {
            false
        }
    }

    /// Takes a permit back.
    pub fn release(&mut self)
        requires
            old(self).wf(),
            old(self).in_use() >= 1,
        ensures
            final(self).wf(),
            final(self).permits() == old(self).permits(),
            final(self).in_use() == old(self).in_use() - 1,
    {
        self.in_use = self.in_use - 1;
    }
}

} // verus!
