use vstd::prelude::*;

verus! {

/// A one-shot shutdown signal: it fires at most once, and firing it again
/// has no effect.
pub struct ShutdownSignal {
    fired: bool,
}

impl ShutdownSignal {
    pub closed spec fn spec_fired(&self) -> bool {
        self.fired
    }

    pub fn new() -> (r: Self)
        ensures
            !r.spec_fired(),
    {
        ShutdownSignal { fired: false }
    }

    /// Fires the signal. Returns whether this call is the one that fired it,
    /// so that observers are notified once.
    pub fn fire(&mut self) -> (first: bool)
        ensures
            final(self).spec_fired(),
            first == !old(self).spec_fired(),
    {
        let first = !self.fired;
        self.fired = true;
        first
    }

    pub fn has_fired(&self) -> (r: bool)
        ensures
            r == self.spec_fired(),
    {
        self.fired
    }
}

} // verus!
