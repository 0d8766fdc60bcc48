use vstd::prelude::*;
use crate::bus::model::byte_at;
use crate::bus::{Bus, BusDevice};
use crate::clock::Clock;

verus! {

/// An observer of the machine. It looks at the bus and at the clock and changes
/// neither.
pub struct Screen<'a, D: BusDevice> {
    bus: &'a Bus<D>,
    clock: &'a Clock,
}

impl<'a, D: BusDevice> Screen<'a, D> {
    /// The bus that the screen looks at.
    pub closed spec fn bus(&self) -> &Bus<D> {
        self.bus
    }

    /// The clock that the screen looks at.
    pub closed spec fn clock(&self) -> &Clock {
        self.clock
    }

    /// A screen that looks at `bus` and `clock`.
    pub fn new(bus: &'a Bus<D>, clock: &'a Clock) -> (screen: Self)
        ensures
            screen.bus() == bus,
            screen.clock() == clock,
    {
        Self { bus, clock }
    }

    /// What the screen shows for `address`: the byte that the bus holds there, taken at
    /// no cost, and the tics on the clock.
    pub fn peek_bus(&self, address: u16) -> (shown: (u8, u32))
        ensures
            shown.0 == byte_at(self.bus()@, address),
            shown.1 == self.clock().tics(),
    {
        (self.bus.peek(address), self.clock.read())
    }
}

} // verus!
