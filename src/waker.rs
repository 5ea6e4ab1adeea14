//! Single-slot wake notification between the interrupt handler and a
//! suspended transfer.
use vstd::prelude::*;

verus! {

/// Holds at most one registered waiter and whether it has been woken since
/// it last looked. Registering again replaces the earlier registration.
#[derive(Clone, Copy, Debug, PartialEq, Eq, Structural)]
pub struct WakeTarget {
    pub registered: bool,
    pub woken: bool,
}

/// The target after the interrupt side fires it: a registered waiter is
/// woken and its registration used up.
pub open spec fn fired(t: WakeTarget) -> WakeTarget {
    WakeTarget { registered: false, woken: t.woken || t.registered }
}

impl WakeTarget {
    /// Nothing registered, nothing woken.
    pub open spec fn new_spec() -> WakeTarget {
        WakeTarget { registered: false, woken: false }
    }

    pub fn new() -> (t: Self)
        ensures
            t == WakeTarget::new_spec(),
    {
        WakeTarget { registered: false, woken: false }
    }

    /// Arms the target for the current waiter.
    pub fn register(&mut self)
        ensures
            final(self).registered,
            final(self).woken == old(self).woken,
    {
        self.registered = true;
    }

    /// Wakes the registered waiter, if any.
    pub fn wake(&mut self)
        ensures
            *final(self) == fired(*old(self)),
    {
        if self.registered {
            self.woken = true;
            self.registered = false;
        }
    }

    /// Reports whether a wake arrived since the last call, and forgets it.
    pub fn take_wake(&mut self) -> (r: bool)
        ensures
            r == old(self).woken,
            !final(self).woken,
            final(self).registered == old(self).registered,
    {
        let r = self.woken;
        self.woken = false;
        r
    }
}

} // verus!
