use vstd::prelude::*;
use crate::bus::model::{access_tics, byte_at, store, word_at, word_tics, DeviceModel};
use crate::cpu::cu::{CUnit, IndexedAddressMode, Prefix, Status};
use crate::cpu::instruction::{extended_instruction, main_instruction, prefix_byte, Instruction};
use crate::cpu::regs::{Flag, RegisterSet, Registers};
use crate::error::Error;

verus! {

/// The tics that the processor itself spends on a prefix byte `DD`, `FD` or `ED`.
pub const PREFIX_TICS: u32 = 1;

/// The tics that the processor itself spends on forming an indexed address.
pub const DISPLACEMENT_TICS: u32 = 2;

/// The signed value of a displacement byte.
pub open spec fn displacement(byte: u8) -> int {
    if byte < 0x80 {
        byte as int
    } else {
        byte - 0x100
    }
}

/// The address `base + d` for the displacement byte `byte`, within the 16-bit address
/// space.
pub open spec fn indexed_address(base: u16, byte: u8) -> u16 {
    ((base + displacement(byte)) % 0x10000) as u16
}

/// How far the decoder can still go from a prefix: two more bytes fold into an
/// instruction without prefix, one into `DD` or `FD`, none into the others.
pub open spec fn prefix_rank(prefix: Option<Prefix>) -> nat {
    match prefix {
        None => 2,
        Some(Prefix::DD) | Some(Prefix::FD) => 1,
        Some(_) => 0,
    }
}

/// The machine as a mathematical value: the control unit, the devices on the bus and
/// the tics on the clock.
pub struct Machine {
    pub cu: CUnit,
    pub devices: Seq<DeviceModel>,
    pub tics: u32,
}

impl Machine {
    /// The machine with `regs` for its register file.
    pub open spec fn with_regs(self, regs: Registers) -> Machine {
        Machine { cu: CUnit { regs, ..self.cu }, ..self }
    }

    /// The machine with `main` for its main register bank.
    pub open spec fn with_main(self, main: RegisterSet) -> Machine {
        self.with_regs(Registers { main, ..self.cu.regs })
    }

    /// The machine with the program counter at `pc`.
    pub open spec fn with_pc(self, pc: u16) -> Machine {
        self.with_regs(Registers { pc, ..self.cu.regs })
    }

    /// The machine after the processor spent `tics` of its own.
    pub open spec fn debit(self, tics: u32) -> Machine {
        Machine { tics: self.tics.wrapping_add(tics), ..self }
    }

    /// The machine after a read at `address`, and the byte read.
    pub open spec fn read(self, address: u16) -> (Machine, u8) {
        (self.debit(access_tics(self.devices, address)), byte_at(self.devices, address))
    }

    /// The machine after a word was read at `address`, and the word.
    pub open spec fn read_word(self, address: u16) -> (Machine, u16) {
        (self.debit(word_tics(self.devices, address)), word_at(self.devices, address))
    }

    /// The machine after `value` was written to `address`.
    pub open spec fn write(self, address: u16, value: u8) -> Machine {
        Machine {
            devices: store(self.devices, address, value),
            ..self.debit(access_tics(self.devices, address))
        }
    }

    /// The machine after the byte at the program counter was read as an operand, and
    /// that byte. The program counter moves past it.
    pub open spec fn next_byte(self) -> (Machine, u8) {
        let (after, value) = self.read(self.cu.regs.pc);
        (after.with_pc(self.cu.regs.pc.wrapping_add(1)), value)
    }

    /// The machine after the word at the program counter was read as an operand, and
    /// that word. The program counter moves past it.
    pub open spec fn next_word(self) -> (Machine, u16) {
        let (after, value) = self.read_word(self.cu.regs.pc);
        (after.with_pc(self.cu.regs.pc.wrapping_add(2)), value)
    }

    /// The machine after the address of a memory operand was formed, and that address:
    /// HL, or, while an index register is in effect, that register plus the displacement
    /// byte at the program counter.
    pub open spec fn effective_address(self) -> (Machine, u16) {
        match self.cu.address_mode {
            None => (self, self.cu.regs.main.hl_value()),
            Some(mode) => {
                let base = match mode {
                    IndexedAddressMode::IX => self.cu.regs.ix,
                    IndexedAddressMode::IY => self.cu.regs.iy,
                };
                let (after, byte) = self.next_byte();
                (after.debit(DISPLACEMENT_TICS), indexed_address(base, byte))
            },
        }
    }

    /// The tics that the processor itself spends on a load between a register and a
    /// memory operand, once the address is formed.
    pub open spec fn memory_operand_tics(self) -> u32 {
        if self.cu.address_mode.is_some() {
            4
        } else {
            1
        }
    }

    /// The flag register after `LD A,I`: S is bit 7 of I, Z tells whether I is zero,
    /// P/V copies IFF2, H and N are cleared, and every other bit is kept.
    pub open spec fn ld_a_i_flags(self) -> RegisterSet {
        let regs = self.cu.regs;
        regs.main.with_flag(Flag::S, regs.i >= 0x80).with_flag(Flag::Z, regs.i == 0).with_flag(
            Flag::H,
            false,
        ).with_flag(Flag::PV, regs.iff2).with_flag(Flag::N, false)
    }

    /// The machine after `instruction` was carried out. Its opcode is already consumed;
    /// operand bytes are read at the program counter.
    pub open spec fn perform(self, instruction: Instruction) -> Machine {
        let main = self.cu.regs.main;
        match instruction {
            Instruction::Nop => self.debit(1),
            Instruction::Halt => Machine {
                cu: CUnit { status: Status::Halted, ..self.cu },
                ..self
            }.debit(1),
            Instruction::LdRR { dst, src } => self.with_main(main.with_reg(dst, main.reg(src))).debit(
                1,
            ),
            Instruction::LdRHl { dst } => {
                let (formed, address) = self.effective_address();
                let (after, value) = formed.read(address);
                after.with_main(main.with_reg(dst, value)).debit(self.memory_operand_tics())
            },
            Instruction::LdHlR { src } => {
                let (formed, address) = self.effective_address();
                formed.write(address, main.reg(src)).debit(self.memory_operand_tics())
            },
            Instruction::LdRN { dst } => {
                let (after, value) = self.next_byte();
                after.with_main(main.with_reg(dst, value)).debit(1)
            },
            Instruction::LdHlN => {
                let (formed, address) = self.effective_address();
                let (after, value) = formed.next_byte();
                after.write(address, value).debit(1)
            },
            Instruction::LdBcA => self.write(main.bc_value(), main.a).debit(1),
            Instruction::LdDeA => self.write(main.de_value(), main.a).debit(1),
            Instruction::LdABc => {
                let (after, value) = self.read(main.bc_value());
                after.with_main(RegisterSet { a: value, ..main }).debit(1)
            },
            Instruction::LdADe => {
                let (after, value) = self.read(main.de_value());
                after.with_main(RegisterSet { a: value, ..main }).debit(1)
            },
            Instruction::LdNnA => {
                let (after, address) = self.next_word();
                after.write(address, main.a).debit(1)
            },
            Instruction::LdANn => {
                let (fetched, address) = self.next_word();
                let (after, value) = fetched.read(address);
                after.with_main(RegisterSet { a: value, ..main }).debit(1)
            },
            Instruction::LdAI => self.with_main(
                RegisterSet { a: self.cu.regs.i, ..self.ld_a_i_flags() },
            ).debit(2),
        }
    }

    /// The machine with the decoder back between two instructions: no prefix, and HL
    /// for memory operands.
    pub open spec fn end_instruction(self) -> Machine {
        Machine { cu: CUnit { address_mode: None, prefix: None, ..self.cu }, ..self }
    }

    /// The machine with `prefix` folded in and `address_mode` in effect.
    pub open spec fn with_prefix(
        self,
        prefix: Prefix,
        address_mode: Option<IndexedAddressMode>,
    ) -> Machine {
        Machine { cu: CUnit { address_mode, prefix: Some(prefix), ..self.cu }, ..self }
    }

    /// The machine after the prefix byte that opens `opened` was met in the place of a
    /// main-table opcode.
    ///
    /// With no prefix before it, `DD` and `FD` bring IX and IY into effect, `ED` and `CB`
    /// select their tables, and the instruction goes on. After `DD` or `FD`, the byte
    /// `CB` selects the indexed bit table and the instruction goes on, whereas a second
    /// `DD`, `FD` or `ED` ends the instruction with nothing done. `DD`, `FD` and `ED`
    /// cost the processor one tic.
    pub open spec fn open_prefix(self, opened: Prefix) -> Machine {
        match self.cu.prefix {
            None => match opened {
                Prefix::DD => self.with_prefix(Prefix::DD, Some(IndexedAddressMode::IX)).debit(
                    PREFIX_TICS,
                ),
                Prefix::FD => self.with_prefix(Prefix::FD, Some(IndexedAddressMode::IY)).debit(
                    PREFIX_TICS,
                ),
                Prefix::ED => self.with_prefix(Prefix::ED, None).debit(PREFIX_TICS),
                _ => self.with_prefix(Prefix::CB, self.cu.address_mode),
            },
            Some(before) => match opened {
                Prefix::DD | Prefix::FD | Prefix::ED => self.debit(PREFIX_TICS).end_instruction(),
                _ => match before {
                    Prefix::DD => self.with_prefix(Prefix::DDCB, self.cu.address_mode),
                    _ => self.with_prefix(Prefix::FDCB, self.cu.address_mode),
                },
            },
        }
    }

    /// What decoding fails with on `opcode`: the prefix in effect and the byte.
    pub open spec fn unknown(self, opcode: u8) -> Error {
        Error::UnknownOpcode { prefix: self.cu.prefix, byte: opcode }
    }

    /// The machine after `opcode` was decoded in the main table, and whether the table
    /// knew it. `opcode` is an instruction of the table, a prefix byte, or unknown.
    pub open spec fn decode_main(self, opcode: u8) -> (Machine, Result<(), Error>) {
        match main_instruction(opcode) {
            Some(instruction) => (self.perform(instruction).end_instruction(), Ok(())),
            None => match prefix_byte(opcode) {
                Some(opened) => (self.open_prefix(opened), Ok(())),
                None => (self.end_instruction(), Err(self.unknown(opcode))),
            },
        }
    }

    /// The machine after `opcode` was decoded in the table that follows `ED`, and
    /// whether the table knew it.
    pub open spec fn decode_extended(self, opcode: u8) -> (Machine, Result<(), Error>) {
        match extended_instruction(opcode) {
            Some(instruction) => (self.perform(instruction).end_instruction(), Ok(())),
            None => (self.end_instruction(), Err(self.unknown(opcode))),
        }
    }

    /// The machine after `opcode` was decoded under the prefix in effect, and whether it
    /// was known. The main table serves with no prefix and after `DD` and `FD`; the
    /// tables after `CB`, `DDCB` and `FDCB` know no opcode.
    pub open spec fn decode(self, opcode: u8) -> (Machine, Result<(), Error>) {
        match self.cu.prefix {
            None | Some(Prefix::DD) | Some(Prefix::FD) => self.decode_main(opcode),
            Some(Prefix::ED) => self.decode_extended(opcode),
            Some(_) => (self.end_instruction(), Err(self.unknown(opcode))),
        }
    }

    /// The machine after the next opcode byte was fetched, and that byte. While the
    /// processor is halted the byte read counts as `NOP` and the program counter stays.
    pub open spec fn fetch(self) -> (Machine, u8) {
        let (after, byte) = self.read(self.cu.regs.pc);
        match self.cu.status {
            Status::Halted => (after, 0x00),
            Status::Running => (after.with_pc(self.cu.regs.pc.wrapping_add(1)), byte),
        }
    }

    /// The machine after one byte was fetched and decoded, and whether it was known.
    pub open spec fn advance(self) -> (Machine, Result<(), Error>) {
        let (fetched, opcode) = self.fetch();
        fetched.decode(opcode)
    }

    /// The machine after one whole instruction, prefixes included, and whether it was
    /// known: bytes are fetched and decoded until no prefix is left open or one is
    /// unknown.
    pub open spec fn step(self) -> (Machine, Result<(), Error>)
        decreases prefix_rank(self.cu.prefix),
    {
        let (after, result) = self.advance();
        if result.is_ok() && after.cu.prefix.is_some() && prefix_rank(after.cu.prefix)
            < prefix_rank(self.cu.prefix) {
            after.step()
        } else {
            (after, result)
        }
    }
}

/// A byte that is decoded either ends the instruction or opens a prefix from which
/// the decoder can go less far than before. So an instruction ends after three bytes
/// at most, apart from its operands.
pub proof fn lemma_decode_ends_or_descends(machine: Machine, opcode: u8)
    ensures
        ({
            let (after, result) = machine.decode(opcode);
            &&& result.is_err() ==> after.cu.prefix.is_none() && after.cu.address_mode.is_none()
            &&& after.cu.prefix.is_some() ==> prefix_rank(after.cu.prefix) < prefix_rank(
                machine.cu.prefix,
            )
        }),
{
}

/// After a whole instruction the decoder is back between two instructions, whether
/// the instruction was known or not.
pub proof fn lemma_step_ends_instruction(machine: Machine)
    ensures
        machine.step().0.cu.prefix.is_none(),
        machine.step().0.cu.address_mode.is_none(),
    decreases prefix_rank(machine.cu.prefix),
{
    let (fetched, opcode) = machine.fetch();
    let (after, result) = machine.advance();
    lemma_decode_ends_or_descends(fetched, opcode);
    if result.is_ok() && after.cu.prefix.is_some() {
        lemma_step_ends_instruction(after);
    }
}

} // verus!
