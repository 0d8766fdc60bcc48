use vstd::prelude::*;
use crate::cpu::cu::Prefix;
use crate::cpu::regs::is_register_index;

verus! {

/// The instructions that the decoder knows. A register operand is the 3-bit code of an
/// 8-bit register. A memory operand is the byte at the effective address: HL, or an
/// index register plus a displacement while an indexing prefix is in effect.
#[derive(Clone, Copy, Debug, PartialEq, Eq, Structural)]
pub enum Instruction {
    /// `NOP`
    Nop,
    /// `HALT`
    Halt,
    /// `LD r,r'`
    LdRR { dst: u8, src: u8 },
    /// `LD r,(HL)`
    LdRHl { dst: u8 },
    /// `LD (HL),r`
    LdHlR { src: u8 },
    /// `LD r,n`
    LdRN { dst: u8 },
    /// `LD (HL),n`
    LdHlN,
    /// `LD (BC),A`
    LdBcA,
    /// `LD (DE),A`
    LdDeA,
    /// `LD A,(BC)`
    LdABc,
    /// `LD A,(DE)`
    LdADe,
    /// `LD (nn),A`
    LdNnA,
    /// `LD A,(nn)`
    LdANn,
    /// `LD A,I`
    LdAI,
}

impl Instruction {
    /// Whether each register operand is the code of a register.
    pub open spec fn well_formed(self) -> bool {
        match self {
            Instruction::LdRR { dst, src } => is_register_index(dst) && is_register_index(src),
            Instruction::LdRHl { dst } => is_register_index(dst),
            Instruction::LdHlR { src } => is_register_index(src),
            Instruction::LdRN { dst } => is_register_index(dst),
            _ => true,
        }
    }
}

/// Bits 5 to 3 of an opcode: the code of the destination operand.
pub open spec fn dst_field(opcode: u8) -> u8 {
    ((opcode / 8) % 8) as u8
}

/// Bits 2 to 0 of an opcode: the code of the source operand.
pub open spec fn src_field(opcode: u8) -> u8 {
    (opcode % 8) as u8
}

/// The instruction that `opcode` encodes in the main table, if it encodes one.
pub open spec fn main_instruction(opcode: u8) -> Option<Instruction> {
    let dst = dst_field(opcode);
    let src = src_field(opcode);
    if opcode == 0x00 {
        Some(Instruction::Nop)
    } else if opcode == 0x02 {
        Some(Instruction::LdBcA)
    } else if opcode == 0x0A {
        Some(Instruction::LdABc)
    } else if opcode == 0x12 {
        Some(Instruction::LdDeA)
    } else if opcode == 0x1A {
        Some(Instruction::LdADe)
    } else if opcode == 0x32 {
        Some(Instruction::LdNnA)
    } else if opcode == 0x36 {
        Some(Instruction::LdHlN)
    } else if opcode == 0x3A {
        Some(Instruction::LdANn)
    } else if opcode == 0x76 {
        Some(Instruction::Halt)
    } else if opcode < 0x40 && src == 0b110 && dst != 0b110 {
        Some(Instruction::LdRN { dst })
    } else if 0x40 <= opcode <= 0x7F && dst != 0b110 && src != 0b110 {
        Some(Instruction::LdRR { dst, src })
    } else if 0x40 <= opcode <= 0x7F && src == 0b110 {
        Some(Instruction::LdRHl { dst })
    } else if 0x40 <= opcode <= 0x7F {
        Some(Instruction::LdHlR { src })
    } else {
        None
    }
}

/// The instruction that `opcode` encodes in the table that follows the prefix `ED`, if
/// it encodes one.
pub open spec fn extended_instruction(opcode: u8) -> Option<Instruction> {
    if opcode == 0x57 {
        Some(Instruction::LdAI)
    } else {
        None
    }
}

/// The prefix that `opcode` opens where it stands in the place of a main-table opcode.
pub open spec fn prefix_byte(opcode: u8) -> Option<Prefix> {
    if opcode == 0xDD {
        Some(Prefix::DD)
    } else if opcode == 0xFD {
        Some(Prefix::FD)
    } else if opcode == 0xED {
        Some(Prefix::ED)
    } else if opcode == 0xCB {
        Some(Prefix::CB)
    } else {
        None
    }
}

/// The tables hand out well-formed instructions only, and no prefix byte encodes an
/// instruction.
pub proof fn lemma_tables(opcode: u8)
    ensures
        main_instruction(opcode) matches Some(instruction) ==> instruction.well_formed(),
        extended_instruction(opcode) matches Some(instruction) ==> instruction.well_formed(),
        prefix_byte(opcode).is_some() ==> main_instruction(opcode).is_none(),
{
}

/// Splits an opcode into its destination and source fields.
pub fn operand_fields(opcode: u8) -> (fields: (u8, u8))
    ensures
        fields.0 == dst_field(opcode),
        fields.1 == src_field(opcode),
{
    let dst: u8 = (opcode & 0b00111000) >> 3;
    let src: u8 = opcode & 0b00000111;
    assert((opcode & 0b00111000) >> 3 == (opcode / 8) % 8) by (bit_vector);
    assert(opcode & 0b00000111 == opcode % 8) by (bit_vector);
    (dst, src)
}

/// Looks `opcode` up in the main table.
pub fn lookup_main(opcode: u8) -> (instruction: Option<Instruction>)
    ensures
        instruction == main_instruction(opcode),
{
    let (dst, src) = operand_fields(opcode);
    match opcode {
        0x00 => Some(Instruction::Nop),
        0x02 => Some(Instruction::LdBcA),
        0x0A => Some(Instruction::LdABc),
        0x12 => Some(Instruction::LdDeA),
        0x1A => Some(Instruction::LdADe),
        0x32 => Some(Instruction::LdNnA),
        0x36 => Some(Instruction::LdHlN),
        0x3A => Some(Instruction::LdANn),
        0x76 => Some(Instruction::Halt),
        0x00..=0x3F => {
            if src == 0b110 && dst != 0b110 {
                Some(Instruction::LdRN { dst })
            } else {
                None
            }
        },
        0x40..=0x7F => {
            if dst != 0b110 && src != 0b110 {
                Some(Instruction::LdRR { dst, src })
            } else if src == 0b110 {
                Some(Instruction::LdRHl { dst })
            } else {
                Some(Instruction::LdHlR { src })
            }
        },
        _ => None,
    }
}

/// Looks `opcode` up in the table that follows the prefix `ED`.
pub fn lookup_extended(opcode: u8) -> (instruction: Option<Instruction>)
    ensures
        instruction == extended_instruction(opcode),
{
    match opcode {
        0x57 => Some(Instruction::LdAI),
        _ => None,
    }
}

/// Tells which prefix `opcode` opens, if it is a prefix byte.
pub fn lookup_prefix(opcode: u8) -> (prefix: Option<Prefix>)
    ensures
        prefix == prefix_byte(opcode),
{
    match opcode {
        0xDD => Some(Prefix::DD),
        0xFD => Some(Prefix::FD),
        0xED => Some(Prefix::ED),
        0xCB => Some(Prefix::CB),
        _ => None,
    }
}

} // verus!
