use vstd::prelude::*;
use crate::cpu::cu::Prefix;

verus! {

/// What the core can refuse to do.
#[derive(Clone, Copy, Debug, PartialEq, Eq, Structural)]
pub enum Error {
    /// A device window reaches past the end of the address space or meets a
    /// window that is already on the bus.
    AddressConflict,
    /// A register index that names no 8-bit register.
    BadRegisterIndex,
    /// No instruction is encoded by `byte` in the decode table that `prefix` selects.
    UnknownOpcode { prefix: Option<Prefix>, byte: u8 },
}

} // verus!
