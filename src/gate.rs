use vstd::prelude::*;

verus! {

/// A counting gate that bounds how many units of work run at once.
pub struct Gate {
    capacity: usize,
    in_use: usize,
}

impl Gate {
    /// The number of slots, fixed for as long as it lives.
    pub closed spec fn capacity_of(&self) -> nat {
        self.capacity as nat
    }

    /// The number of slots held.
    pub closed spec fn in_use_of(&self) -> nat {
        self.in_use as nat
    }

    /// A well-formed gate has at least one slot and never hands out more than it has.
    pub closed spec fn wf(&self) -> bool {
        0 < self.capacity && self.in_use <= self.capacity
    }

    /// A gate with `capacity` free slots.
    pub fn new(capacity: usize) -> (r: Gate)
        requires
            capacity > 0,
        ensures
            r.wf(),
            r.capacity_of() == capacity,
            r.in_use_of() == 0,
    {
        Gate { capacity, in_use: 0 }
    }

    /// Takes a slot where one is free; reports whether it did.
    pub fn try_acquire(&mut self) -> (r: bool)
        requires
            old(self).wf(),
        ensures
            final(self).wf(),
            final(self).capacity_of() == old(self).capacity_of(),
            r == (old(self).in_use_of() < old(self).capacity_of()),
            r ==> final(self).in_use_of() == old(self).in_use_of() + 1,
            !r ==> final(self).in_use_of() == old(self).in_use_of(),
    {
        if self.in_use < self.capacity {
            self.in_use = self.in_use + 1;
            true
        } else {
            false
        }
    }

    /// Gives a held slot back.
    pub fn release(&mut self)
        requires
            old(self).wf(),
            old(self).in_use_of() > 0,
        ensures
            final(self).wf(),
            final(self).capacity_of() == old(self).capacity_of(),
            final(self).in_use_of() == old(self).in_use_of() - 1,
    {
        self.in_use = self.in_use - 1;
    }

    /// The number of slots held.
    pub fn in_use(&self) -> (r: usize)
        ensures
            r == self.in_use_of(),
    {
        self.in_use
    }

    /// The number of slots.
    pub fn capacity(&self) -> (r: usize)
        ensures
            r == self.capacity_of(),
    {
        self.capacity
    }
}

/// A gate never has more slots held than it has.
pub proof fn lemma_gate_bounded(g: &Gate)
    requires
        g.wf(),
    ensures
        g.in_use_of() <= g.capacity_of(),
        g.capacity_of() > 0,
{
}

} // verus!
