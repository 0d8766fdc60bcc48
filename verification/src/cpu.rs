use vstd::prelude::*;
use crate::bus::{Bus, BusDevice};
use crate::clock::Clock;
use crate::cpu::cu::{CUnit, Status};
use crate::bus::model::{same_layout, windows_disjoint};
use crate::cpu::laws::{lemma_step_fails_on_unknown_opcode_only, lemma_step_keeps_layout};
use crate::cpu::machine::{
    lemma_decode_ends_or_descends, lemma_step_ends_instruction, prefix_rank, Machine,
};
use crate::cpu::regs::Registers;
use crate::error::Error;

pub mod cu;
pub mod instruction;
pub mod laws;
pub mod machine;
pub mod regs;

verus! {

/// The processor with the bus it drives and the clock it runs on.
pub struct Cpu<D: BusDevice> {
    pub bus: Bus<D>,
    pub clock: Clock,
    pub cu: CUnit,
}

impl<D: BusDevice> View for Cpu<D> {
    type V = Machine;

    open spec fn view(&self) -> Machine {
        self.cu.on(self.bus@, self.clock.tics())
    }
}

impl<D: BusDevice> Cpu<D> {
    /// A processor on `bus` and `clock`: every register zero, interrupts disabled,
    /// running, between two instructions.
    pub fn new(bus: Bus<D>, clock: Clock) -> (cpu: Self)
        ensures
            cpu@ == CUnit::fresh(Registers::initial()).on(bus@, clock.tics()),
    {
        Self { bus, clock, cu: CUnit::new(Registers::new()) }
    }

    /// Puts the processor back into the state in which `new` makes it and the clock
    /// back to zero. The devices keep their contents.
    pub fn reset(&mut self)
        ensures
            final(self)@ == CUnit::fresh(Registers::initial()).on(old(self).bus@, 0),
    {
        self.cu = CUnit::new(Registers::new());
        self.clock.reset();
    }

    /// Executes one instruction, prefix bytes included. A halted processor idles
    /// through one `NOP` instead, with the program counter standing.
    ///
    /// An unknown opcode is refused with `Error::UnknownOpcode`: the bytes consumed so
    /// far stay consumed and the decoder is back between two instructions.
    pub fn execute(&mut self) -> (result: Result<(), Error>)
        ensures
            (final(self)@, result) == old(self)@.step(),
            result matches Err(error) ==> error matches Error::UnknownOpcode { .. },
            final(self).cu.prefix.is_none(),
            final(self).cu.address_mode.is_none(),
            same_layout(old(self).bus@, final(self).bus@),
            windows_disjoint(old(self).bus@) ==> windows_disjoint(final(self).bus@),
    {
        loop
            invariant
                self@.step() == old(self)@.step(),
            decreases prefix_rank(self.cu.prefix),
        {
            let ghost before = self@;
            let opcode = self.fetch_op();
            proof {
                lemma_decode_ends_or_descends(self@, opcode);
            }
            let result = self.cu.decode(opcode, &mut self.bus, &mut self.clock);
            if result.is_err() || self.cu.prefix.is_none() {
                proof {
                    lemma_step_ends_instruction(old(self)@);
                    lemma_step_keeps_layout(old(self)@);
                    lemma_step_fails_on_unknown_opcode_only(old(self)@);
                }
                return result;
            }
        }
    }

    /// Fetches the next opcode byte. While the processor is halted the byte read counts
    /// as `NOP` and the program counter stays.
    fn fetch_op(&mut self) -> (opcode: u8)
        ensures
            (final(self)@, opcode) == old(self)@.fetch(),
    {
        let byte = self.bus.read(self.cu.regs.pc, &mut self.clock);
        match self.cu.status {
            Status::Halted => 0x00,
            Status::Running => {
                self.cu.regs.pc = self.cu.regs.pc.wrapping_add(1);
                byte
            },
        }
    }
}

} // verus!
