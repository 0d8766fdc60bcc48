use vstd::prelude::*;
use crate::bus::model::DeviceModel;
use crate::bus::{Bus, BusDevice};
use crate::clock::Clock;
use crate::cpu::instruction::{
    lemma_tables, lookup_extended, lookup_main, lookup_prefix, Instruction,
};
use crate::cpu::machine::{indexed_address, Machine, DISPLACEMENT_TICS, PREFIX_TICS};
use crate::cpu::regs::{is_register_index, Flag, Registers};
use crate::error::Error;

verus! {

/// Whether the processor executes instructions or idles after a `HALT`.
#[derive(Clone, Copy, Debug, PartialEq, Eq, Structural)]
pub enum Status {
    Running,
    Halted,
}

/// The index register that stands in for HL while an indexing prefix is in effect.
#[derive(Clone, Copy, Debug, PartialEq, Eq, Structural)]
pub enum IndexedAddressMode {
    IX,
    IY,
}

/// A prefix byte, or a compound of two, that selects the decode table for the byte after it.
#[derive(Clone, Copy, Debug, PartialEq, Eq, Structural)]
pub enum Prefix {
    DD,
    FD,
    ED,
    CB,
    DDCB,
    FDCB,
}

/// The control unit: the register file and what the decoder remembers between the
/// bytes of one instruction.
#[derive(Clone, Copy, Debug, PartialEq, Eq, Structural)]
pub struct CUnit {
    pub regs: Registers,
    pub status: Status,
    /// The index register in effect for a memory operand; `None` stands for HL.
    pub address_mode: Option<IndexedAddressMode>,
    /// The prefix folded so far into the instruction being decoded.
    pub prefix: Option<Prefix>,
}

impl CUnit {
    /// The control unit between two instructions, running, with `regs` for its register
    /// file.
    pub open spec fn fresh(regs: Registers) -> CUnit {
        CUnit { regs, status: Status::Running, address_mode: None, prefix: None }
    }

    /// The machine made of this control unit, the devices `devices` and a clock at
    /// `tics`.
    pub open spec fn on(self, devices: Seq<DeviceModel>, tics: u32) -> Machine {
        Machine { cu: self, devices, tics }
    }

    /// A control unit between two instructions, running, with `regs` for its register
    /// file.
    pub fn new(regs: Registers) -> (cu: Self)
        ensures
            cu == CUnit::fresh(regs),
    {
        Self { regs, status: Status::Running, address_mode: None, prefix: None }
    }

    /// Reads the operand byte at the program counter and moves the counter past it.
    fn next_byte<D: BusDevice>(&mut self, bus: &Bus<D>, clock: &mut Clock) -> (value: u8)
        ensures
            (final(self).on(bus@, final(clock).tics()), value) == old(self).on(
                bus@,
                old(clock).tics(),
            ).next_byte(),
    {
        let value = bus.read(self.regs.pc, clock);
        self.regs.pc = self.regs.pc.wrapping_add(1);
        value
    }

    /// Reads the operand word at the program counter and moves the counter past it.
    fn next_word<D: BusDevice>(&mut self, bus: &Bus<D>, clock: &mut Clock) -> (value: u16)
        ensures
            (final(self).on(bus@, final(clock).tics()), value) == old(self).on(
                bus@,
                old(clock).tics(),
            ).next_word(),
    {
        let value = bus.read_word(self.regs.pc, clock);
        self.regs.pc = self.regs.pc.wrapping_add(2);
        value
    }

    /// Forms the address of a memory operand: HL, or the index register in effect plus
    /// the displacement byte at the program counter.
    fn get_address_by_address_mode<D: BusDevice>(
        &mut self,
        bus: &Bus<D>,
        clock: &mut Clock,
    ) -> (address: u16)
        ensures
            (final(self).on(bus@, final(clock).tics()), address) == old(self).on(
                bus@,
                old(clock).tics(),
            ).effective_address(),
    {
        match self.address_mode {
            None => self.regs.main.hl(),
            Some(mode) => {
                let base_address = match mode {
                    IndexedAddressMode::IX => self.regs.ix,
                    IndexedAddressMode::IY => self.regs.iy,
                };
                let d = self.next_byte(bus, clock);
                clock.add(DISPLACEMENT_TICS);
                add_displacement(base_address, d)
            },
        }
    }

    /// Decodes `opcode` under the prefix in effect and carries out what it encodes.
    ///
    /// An instruction of the table in effect is carried out, and the decoder is back
    /// between two instructions. A prefix byte is folded in, and the instruction goes on
    /// with the next byte. Any other byte is refused as unknown, with the decoder back
    /// between two instructions and nothing else changed.
    pub fn decode<D: BusDevice>(
        &mut self,
        opcode: u8,
        bus: &mut Bus<D>,
        clock: &mut Clock,
    ) -> (result: Result<(), Error>)
        ensures
            (final(self).on(final(bus)@, final(clock).tics()), result) == old(self).on(
                old(bus)@,
                old(clock).tics(),
            ).decode(opcode),
    {
        match self.prefix {
            None | Some(Prefix::DD) | Some(Prefix::FD) => self.decode_prefix_none(
                opcode,
                bus,
                clock,
            ),
            Some(Prefix::ED) => self.decode_prefix_ed(opcode, bus, clock),
            Some(prefix) => {
                self.end_instruction();
                Err(Error::UnknownOpcode { prefix: Some(prefix), byte: opcode })
            },
        }
    }

    /// Puts the decoder back between two instructions.
    fn end_instruction(&mut self)
        ensures
            *final(self) == (CUnit { address_mode: None, prefix: None, ..*old(self) }),
    {
        self.address_mode = None;
        self.prefix = None;
    }

    /// Decodes `opcode` in the main table, which serves with no prefix and after `DD`
    /// and `FD`.
    fn decode_prefix_none<D: BusDevice>(
        &mut self,
        opcode: u8,
        bus: &mut Bus<D>,
        clock: &mut Clock,
    ) -> (result: Result<(), Error>)
        ensures
            (final(self).on(final(bus)@, final(clock).tics()), result) == old(self).on(
                old(bus)@,
                old(clock).tics(),
            ).decode_main(opcode),
    {
        proof {
            lemma_tables(opcode);
        }
        match lookup_main(opcode) {
            Some(instruction) => {
                let result = self.perform(instruction, bus, clock);
                self.end_instruction();
                result
            },
            None => match lookup_prefix(opcode) {
                Some(opened) => {
                    self.open_prefix(opened, clock);
                    Ok(())
                },
                None => {
                    let prefix = self.prefix;
                    self.end_instruction();
                    Err(Error::UnknownOpcode { prefix, byte: opcode })
                },
            },
        }
    }

    /// Decodes `opcode` in the table that follows the prefix `ED`.
    fn decode_prefix_ed<D: BusDevice>(
        &mut self,
        opcode: u8,
        bus: &mut Bus<D>,
        clock: &mut Clock,
    ) -> (result: Result<(), Error>)
        ensures
            (final(self).on(final(bus)@, final(clock).tics()), result) == old(self).on(
                old(bus)@,
                old(clock).tics(),
            ).decode_extended(opcode),
    {
        proof {
            lemma_tables(opcode);
        }
        match lookup_extended(opcode) {
            Some(instruction) => {
                let result = self.perform(instruction, bus, clock);
                self.end_instruction();
                result
            },
            None => {
                let prefix = self.prefix;
                self.end_instruction();
                Err(Error::UnknownOpcode { prefix, byte: opcode })
            },
        }
    }

    /// Folds in the prefix that a prefix byte opens.
    fn open_prefix(&mut self, opened: Prefix, clock: &mut Clock)
        ensures
            forall|devices: Seq<DeviceModel>|
                final(self).on(devices, final(clock).tics()) == old(self).on(
                    devices,
                    old(clock).tics(),
                ).open_prefix(opened),
    {
        match self.prefix {
            None => match opened {
                Prefix::DD => {
                    self.prefix = Some(Prefix::DD);
                    self.address_mode = Some(IndexedAddressMode::IX);
                    clock.add(PREFIX_TICS);
                },
                Prefix::FD => {
                    self.prefix = Some(Prefix::FD);
                    self.address_mode = Some(IndexedAddressMode::IY);
                    clock.add(PREFIX_TICS);
                },
                Prefix::ED => {
                    self.prefix = Some(Prefix::ED);
                    self.address_mode = None;
                    clock.add(PREFIX_TICS);
                },
                _ => {
                    self.prefix = Some(Prefix::CB);
                },
            },
            Some(before) => match opened {
                Prefix::DD | Prefix::FD | Prefix::ED => {
                    clock.add(PREFIX_TICS);
                    self.end_instruction();
                },
                _ => match before {
                    Prefix::DD => {
                        self.prefix = Some(Prefix::DDCB);
                    },
                    _ => {
                        self.prefix = Some(Prefix::FDCB);
                    },
                },
            },
        }
    }

    /// Carries out `instruction`, whose opcode is already consumed.
    fn perform<D: BusDevice>(
        &mut self,
        instruction: Instruction,
        bus: &mut Bus<D>,
        clock: &mut Clock,
    ) -> (result: Result<(), Error>)
        requires
            instruction.well_formed(),
        ensures
            result == Ok::<(), Error>(()),
            final(self).on(final(bus)@, final(clock).tics()) == old(self).on(
                old(bus)@,
                old(clock).tics(),
            ).perform(instruction),
    {
        match instruction {
            Instruction::Nop => {
                self.nop(clock);
                Ok(())
            },
            Instruction::Halt => {
                self.halt(clock);
                Ok(())
            },
            Instruction::LdRR { dst, src } => self.ld_r_r(dst, src, clock),
            Instruction::LdRHl { dst } => self.ld_r_hl(dst, bus, clock),
            Instruction::LdHlR { src } => self.ld_hl_r(src, bus, clock),
            Instruction::LdRN { dst } => self.ld_r_n(dst, bus, clock),
            Instruction::LdHlN => {
                self.ld_hl_n(bus, clock);
                Ok(())
            },
            Instruction::LdBcA => {
                self.ld_bc_a(bus, clock);
                Ok(())
            },
            Instruction::LdDeA => {
                self.ld_de_a(bus, clock);
                Ok(())
            },
            Instruction::LdABc => {
                self.ld_a_bc(bus, clock);
                Ok(())
            },
            Instruction::LdADe => {
                self.ld_a_de(bus, clock);
                Ok(())
            },
            Instruction::LdNnA => {
                self.ld_nn_a(bus, clock);
                Ok(())
            },
            Instruction::LdANn => {
                self.ld_a_nn(bus, clock);
                Ok(())
            },
            Instruction::LdAI => {
                self.ld_a_i(clock);
                Ok(())
            },
        }
    }

    /// `NOP`
    fn nop(&mut self, clock: &mut Clock)
        ensures
            forall|devices: Seq<DeviceModel>|
                final(self).on(devices, final(clock).tics()) == old(self).on(
                    devices,
                    old(clock).tics(),
                ).perform(Instruction::Nop),
    {
        clock.add(1);
    }

    /// `HALT`
    fn halt(&mut self, clock: &mut Clock)
        ensures
            forall|devices: Seq<DeviceModel>|
                final(self).on(devices, final(clock).tics()) == old(self).on(
                    devices,
                    old(clock).tics(),
                ).perform(Instruction::Halt),
    {
        self.status = Status::Halted;
        clock.add(1);
    }

    /// `LD r,r'`
    fn ld_r_r(&mut self, dst: u8, src: u8, clock: &mut Clock) -> (result: Result<(), Error>)
        requires
            is_register_index(dst),
            is_register_index(src),
        ensures
            result == Ok::<(), Error>(()),
            forall|devices: Seq<DeviceModel>|
                final(self).on(devices, final(clock).tics()) == old(self).on(
                    devices,
                    old(clock).tics(),
                ).perform(Instruction::LdRR { dst, src }),
    {
        let value = self.regs.main.get_reg(src)?;
        self.regs.main.set_reg(dst, value)?;
        clock.add(1);
        Ok(())
    }

    /// `LD r,(HL)`
    fn ld_r_hl<D: BusDevice>(
        &mut self,
        dst: u8,
        bus: &Bus<D>,
        clock: &mut Clock,
    ) -> (result: Result<(), Error>)
        requires
            is_register_index(dst),
        ensures
            result == Ok::<(), Error>(()),
            final(self).on(bus@, final(clock).tics()) == old(self).on(
                bus@,
                old(clock).tics(),
            ).perform(Instruction::LdRHl { dst }),
    {
        let indexed = self.address_mode.is_some();
        let address = self.get_address_by_address_mode(bus, clock);
        let value = bus.read(address, clock);
        self.regs.main.set_reg(dst, value)?;
        clock.add(if indexed { 4 } else { 1 });
        Ok(())
    }

    /// `LD (HL),r`
    fn ld_hl_r<D: BusDevice>(
        &mut self,
        src: u8,
        bus: &mut Bus<D>,
        clock: &mut Clock,
    ) -> (result: Result<(), Error>)
        requires
            is_register_index(src),
        ensures
            result == Ok::<(), Error>(()),
            final(self).on(final(bus)@, final(clock).tics()) == old(self).on(
                old(bus)@,
                old(clock).tics(),
            ).perform(Instruction::LdHlR { src }),
    {
        let indexed = self.address_mode.is_some();
        let address = self.get_address_by_address_mode(bus, clock);
        let value = self.regs.main.get_reg(src)?;
        bus.write(address, value, clock);
        clock.add(if indexed { 4 } else { 1 });
        Ok(())
    }

    /// `LD r,n`
    fn ld_r_n<D: BusDevice>(
        &mut self,
        dst: u8,
        bus: &Bus<D>,
        clock: &mut Clock,
    ) -> (result: Result<(), Error>)
        requires
            is_register_index(dst),
        ensures
            result == Ok::<(), Error>(()),
            final(self).on(bus@, final(clock).tics()) == old(self).on(
                bus@,
                old(clock).tics(),
            ).perform(Instruction::LdRN { dst }),
    {
        let value = self.next_byte(bus, clock);
        self.regs.main.set_reg(dst, value)?;
        clock.add(1);
        Ok(())
    }

    /// `LD (HL),n`
    fn ld_hl_n<D: BusDevice>(&mut self, bus: &mut Bus<D>, clock: &mut Clock)
        ensures
            final(self).on(final(bus)@, final(clock).tics()) == old(self).on(
                old(bus)@,
                old(clock).tics(),
            ).perform(Instruction::LdHlN),
    {
        let address = self.get_address_by_address_mode(bus, clock);
        let value = self.next_byte(bus, clock);
        bus.write(address, value, clock);
        clock.add(1);
    }

    /// `LD (BC),A`
    fn ld_bc_a<D: BusDevice>(&mut self, bus: &mut Bus<D>, clock: &mut Clock)
        ensures
            final(self).on(final(bus)@, final(clock).tics()) == old(self).on(
                old(bus)@,
                old(clock).tics(),
            ).perform(Instruction::LdBcA),
    {
        bus.write(self.regs.main.bc(), self.regs.main.a(), clock);
        clock.add(1);
    }

    /// `LD (DE),A`
    fn ld_de_a<D: BusDevice>(&mut self, bus: &mut Bus<D>, clock: &mut Clock)
        ensures
            final(self).on(final(bus)@, final(clock).tics()) == old(self).on(
                old(bus)@,
                old(clock).tics(),
            ).perform(Instruction::LdDeA),
    {
        bus.write(self.regs.main.de(), self.regs.main.a(), clock);
        clock.add(1);
    }

    /// `LD (nn),A`
    fn ld_nn_a<D: BusDevice>(&mut self, bus: &mut Bus<D>, clock: &mut Clock)
        ensures
            final(self).on(final(bus)@, final(clock).tics()) == old(self).on(
                old(bus)@,
                old(clock).tics(),
            ).perform(Instruction::LdNnA),
    {
        let address = self.next_word(bus, clock);
        bus.write(address, self.regs.main.a(), clock);
        clock.add(1);
    }

    /// `LD A,(BC)`
    fn ld_a_bc<D: BusDevice>(&mut self, bus: &Bus<D>, clock: &mut Clock)
        ensures
            final(self).on(bus@, final(clock).tics()) == old(self).on(
                bus@,
                old(clock).tics(),
            ).perform(Instruction::LdABc),
    {
        let value = bus.read(self.regs.main.bc(), clock);
        self.regs.main.set_a(value);
        clock.add(1);
    }

    /// `LD A,(DE)`
    fn ld_a_de<D: BusDevice>(&mut self, bus: &Bus<D>, clock: &mut Clock)
        ensures
            final(self).on(bus@, final(clock).tics()) == old(self).on(
                bus@,
                old(clock).tics(),
            ).perform(Instruction::LdADe),
    {
        let value = bus.read(self.regs.main.de(), clock);
        self.regs.main.set_a(value);
        clock.add(1);
    }

    /// `LD A,(nn)`
    fn ld_a_nn<D: BusDevice>(&mut self, bus: &Bus<D>, clock: &mut Clock)
        ensures
            final(self).on(bus@, final(clock).tics()) == old(self).on(
                bus@,
                old(clock).tics(),
            ).perform(Instruction::LdANn),
    {
        let address = self.next_word(bus, clock);
        let value = bus.read(address, clock);
        self.regs.main.set_a(value);
        clock.add(1);
    }

    /// `LD A,I`
    fn ld_a_i(&mut self, clock: &mut Clock)
        ensures
            forall|devices: Seq<DeviceModel>|
                final(self).on(devices, final(clock).tics()) == old(self).on(
                    devices,
                    old(clock).tics(),
                ).perform(Instruction::LdAI),
    {
        let i = self.regs.i;
        self.regs.main.put_flag(Flag::S, i & 0b10000000 > 0);
        self.regs.main.put_flag(Flag::Z, i == 0);
        self.regs.main.reset_flag(Flag::H);
        self.regs.main.put_flag(Flag::PV, self.regs.iff2);
        self.regs.main.reset_flag(Flag::N);
        self.regs.main.set_a(i);
        clock.add(2);
        assert((i & 0b10000000 > 0) == (i >= 0x80)) by (bit_vector);
    }
}

/// Adds the signed displacement that `byte` encodes to `base`, within the 16-bit
/// address space.
pub fn add_displacement(base: u16, byte: u8) -> (address: u16)
    ensures
        address == indexed_address(base, byte),
{
    if byte < 0x80 {
        base.wrapping_add(byte as u16)
    } else {
        base.wrapping_add(0xFF00 + byte as u16)
    }
}

} // verus!
