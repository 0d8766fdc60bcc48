use vstd::prelude::*;

verus! {

/// Accumulates the tics spent by the processor and by every device on the bus.
pub struct Clock {
    tics: u32,
}

impl Clock {
    /// The number of tics accumulated since the last reset.
    pub closed spec fn tics(&self) -> u32 {
        self.tics
    }

    /// A clock at zero.
    pub fn new() -> (clock: Self)
        ensures
            clock.tics() == 0,
    {
        Clock { tics: 0 }
    }

    /// Advances the clock by `tics`. The count wraps at 32 bits, and short of that it
    /// never goes down.
    pub fn add(&mut self, tics: u32)
        ensures
            final(self).tics() == old(self).tics().wrapping_add(tics),
            old(self).tics() + tics <= u32::MAX ==> final(self).tics() == old(self).tics() + tics,
    {
        self.tics = self.tics.wrapping_add(tics);
    }

    /// The tics on the clock.
    pub fn read(&self) -> (tics: u32)
        ensures
            tics == self.tics(),
    {
        self.tics
    }

    /// Puts the clock back to zero.
    pub fn reset(&mut self)
        ensures
            final(self).tics() == 0,
    {
        self.tics = 0;
    }
}

} // verus!
