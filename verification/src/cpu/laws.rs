use vstd::prelude::*;
use crate::bus::model::{
    access_tics, byte_at, lemma_same_layout, lemma_store_keeps_layout, same_layout, store,
    windows_disjoint, word_tics, DeviceModel,
};
use crate::cpu::cu::{CUnit, Prefix, Status};
use crate::cpu::instruction::{
    dst_field, extended_instruction, main_instruction, src_field, Instruction,
};
use crate::cpu::machine::{prefix_rank, Machine};
use crate::cpu::regs::{lemma_with_flag, Flag, RegisterSet, Registers};
use crate::error::Error;

verus! {

/// Whether the decoder of `machine` stands between two instructions and the processor
/// runs.
pub open spec fn ready(machine: Machine) -> bool {
    &&& machine.cu.status == Status::Running
    &&& machine.cu.prefix.is_none()
    &&& machine.cu.address_mode.is_none()
}

/// `same_layout` holds of any devices and themselves, and passes on from step to step.
pub proof fn lemma_same_layout_chain(
    first: Seq<DeviceModel>,
    second: Seq<DeviceModel>,
    third: Seq<DeviceModel>,
)
    requires
        same_layout(first, second),
        same_layout(second, third),
    ensures
        same_layout(first, first),
        same_layout(first, third),
{
    assert forall|i: int| 0 <= i < first.len() implies (#[trigger] first[i]).same_window(
        third[i],
    ) by {
        assert(first[i].same_window(second[i]));
        assert(second[i].same_window(third[i]));
    }
}

/// Carrying out an instruction moves no device window and changes no access cost.
pub proof fn lemma_perform_keeps_layout(machine: Machine, instruction: Instruction)
    ensures
        same_layout(machine.devices, machine.perform(instruction).devices),
{
    let devices = machine.devices;
    assert forall|address: u16, value: u8| same_layout(devices, #[trigger] store(devices, address, value)) by {
        lemma_store_keeps_layout(devices, address, value);
    }
    assert(same_layout(devices, devices));
}

/// Decoding a byte moves no device window and changes no access cost.
pub proof fn lemma_decode_keeps_layout(machine: Machine, opcode: u8)
    ensures
        same_layout(machine.devices, machine.decode(opcode).0.devices),
{
    assert(same_layout(machine.devices, machine.devices));
    match main_instruction(opcode) {
        Some(instruction) => lemma_perform_keeps_layout(machine, instruction),
        None => {},
    }
    match extended_instruction(opcode) {
        Some(instruction) => lemma_perform_keeps_layout(machine, instruction),
        None => {},
    }
}

/// An instruction moves no device window and changes no access cost, whatever it
/// stores. So windows that are disjoint before it are disjoint after it.
pub proof fn lemma_step_keeps_layout(machine: Machine)
    ensures
        same_layout(machine.devices, machine.step().0.devices),
        windows_disjoint(machine.devices) ==> windows_disjoint(machine.step().0.devices),
    decreases prefix_rank(machine.cu.prefix),
{
    let (fetched, opcode) = machine.fetch();
    let (after, result) = machine.advance();
    lemma_decode_keeps_layout(fetched, opcode);
    if result.is_ok() && after.cu.prefix.is_some() && prefix_rank(after.cu.prefix) < prefix_rank(
        machine.cu.prefix,
    ) {
        lemma_step_keeps_layout(after);
        lemma_same_layout_chain(machine.devices, after.devices, after.step().0.devices);
    }
    lemma_same_layout(machine.devices, machine.step().0.devices);
}

/// `LD r,r'` copies the source register into the destination register, moves the
/// program counter past the opcode, and changes no other register, no flag and no
/// device. The clock advances by the cost of the opcode fetch and one tic.
pub proof fn lemma_ld_r_r(machine: Machine, dst: u8, src: u8)
    requires
        ready(machine),
        main_instruction(byte_at(machine.devices, machine.cu.regs.pc)) == Some(
            Instruction::LdRR { dst, src },
        ),
    ensures
        machine.step().1 == Ok::<(), Error>(()),
        machine.step().0.cu.regs.main == machine.cu.regs.main.with_reg(
            dst,
            machine.cu.regs.main.reg(src),
        ),
        machine.step().0.cu.regs.main.reg(dst) == machine.cu.regs.main.reg(src),
        machine.step().0.cu.regs.main.f == machine.cu.regs.main.f,
        machine.step().0.cu.regs == (Registers {
            main: machine.step().0.cu.regs.main,
            pc: machine.cu.regs.pc.wrapping_add(1),
            ..machine.cu.regs
        }),
        machine.step().0.cu == (CUnit { regs: machine.step().0.cu.regs, ..machine.cu }),
        machine.step().0.devices == machine.devices,
        machine.step().0.tics == machine.tics.wrapping_add(
            access_tics(machine.devices, machine.cu.regs.pc),
        ).wrapping_add(1),
{
}

/// The opcodes `0x40` to `0x7F` whose two operand fields both name a register encode
/// `LD r,r'` with these fields. `0x76` is not among them.
pub proof fn lemma_ld_r_r_block(opcode: u8)
    requires
        0x40 <= opcode <= 0x7F,
        dst_field(opcode) != 0b110,
        src_field(opcode) != 0b110,
    ensures
        opcode != 0x76,
        main_instruction(opcode) == Some(
            Instruction::LdRR { dst: dst_field(opcode), src: src_field(opcode) },
        ),
{
}

/// `LD A,I` loads I into A and sets the flags from it: Z exactly if I is zero, S
/// exactly if I is `0x80` or more, P/V exactly if IFF2 is set; H and N are cleared and
/// C is left as it was. With a cost of three tics for each of the two fetches the
/// instruction takes nine tics.
pub proof fn lemma_ld_a_i(machine: Machine)
    requires
        ready(machine),
        byte_at(machine.devices, machine.cu.regs.pc) == 0xED,
        byte_at(machine.devices, machine.cu.regs.pc.wrapping_add(1)) == 0x57,
    ensures
        machine.step().1 == Ok::<(), Error>(()),
        machine.step().0.cu.regs.main.a == machine.cu.regs.i,
        machine.step().0.cu.regs.main.flag(Flag::Z) <==> machine.cu.regs.i == 0,
        machine.step().0.cu.regs.main.flag(Flag::S) <==> machine.cu.regs.i >= 0x80,
        machine.step().0.cu.regs.main.flag(Flag::PV) <==> machine.cu.regs.iff2,
        !machine.step().0.cu.regs.main.flag(Flag::N),
        !machine.step().0.cu.regs.main.flag(Flag::H),
        machine.step().0.cu.regs.main.flag(Flag::C) <==> machine.cu.regs.main.flag(Flag::C),
        machine.step().0.cu.regs.pc == machine.cu.regs.pc.wrapping_add(2),
        machine.step().0.devices == machine.devices,
        access_tics(machine.devices, machine.cu.regs.pc) == 3 && access_tics(
            machine.devices,
            machine.cu.regs.pc.wrapping_add(1),
        ) == 3 ==> machine.step().0.tics == machine.tics.wrapping_add(9),
{
    let (prefixed, result) = machine.advance();
    assert(result.is_ok() && prefixed.cu.prefix == Some(Prefix::ED));
    assert(machine.step() == prefixed.step());
    let (fetched, opcode) = prefixed.fetch();
    assert(opcode == 0x57);
    let after = fetched.perform(Instruction::LdAI).end_instruction();
    assert(prefixed.step() == (after, Ok::<(), Error>(())));
    let main = fetched.cu.regs.main;
    let i = fetched.cu.regs.i;
    let s1 = main.with_flag(Flag::S, i >= 0x80);
    let s2 = s1.with_flag(Flag::Z, i == 0);
    let s3 = s2.with_flag(Flag::H, false);
    let s4 = s3.with_flag(Flag::PV, fetched.cu.regs.iff2);
    let s5 = s4.with_flag(Flag::N, false);
    assert(fetched.ld_a_i_flags() == s5);
    assert(after.cu.regs.main == (RegisterSet { a: i, ..s5 }));
    lemma_with_flags_chain(main, i >= 0x80, i == 0, false, fetched.cu.regs.iff2, false);
}

/// After S, Z, H, P/V and N were put in this order, each of them reads as it was put,
/// and C reads as before.
pub proof fn lemma_with_flags_chain(set: RegisterSet, s: bool, z: bool, h: bool, pv: bool, n: bool)
    ensures
        ({
            let after = set.with_flag(Flag::S, s).with_flag(Flag::Z, z).with_flag(
                Flag::H,
                h,
            ).with_flag(Flag::PV, pv).with_flag(Flag::N, n);
            &&& after.flag(Flag::S) == s
            &&& after.flag(Flag::Z) == z
            &&& after.flag(Flag::H) == h
            &&& after.flag(Flag::PV) == pv
            &&& after.flag(Flag::N) == n
            &&& after.flag(Flag::C) == set.flag(Flag::C)
            &&& after == (RegisterSet { f: after.f, ..set })
        }),
{
    let s1 = set.with_flag(Flag::S, s);
    let s2 = s1.with_flag(Flag::Z, z);
    let s3 = s2.with_flag(Flag::H, h);
    let s4 = s3.with_flag(Flag::PV, pv);
    let s5 = s4.with_flag(Flag::N, n);
    lemma_with_flag(set, Flag::S, s, Flag::C);
    lemma_with_flag(s1, Flag::Z, z, Flag::S);
    lemma_with_flag(s1, Flag::Z, z, Flag::C);
    lemma_with_flag(s2, Flag::H, h, Flag::S);
    lemma_with_flag(s2, Flag::H, h, Flag::Z);
    lemma_with_flag(s2, Flag::H, h, Flag::C);
    lemma_with_flag(s3, Flag::PV, pv, Flag::S);
    lemma_with_flag(s3, Flag::PV, pv, Flag::Z);
    lemma_with_flag(s3, Flag::PV, pv, Flag::H);
    lemma_with_flag(s3, Flag::PV, pv, Flag::C);
    lemma_with_flag(s4, Flag::N, n, Flag::S);
    lemma_with_flag(s4, Flag::N, n, Flag::Z);
    lemma_with_flag(s4, Flag::N, n, Flag::H);
    lemma_with_flag(s4, Flag::N, n, Flag::PV);
    lemma_with_flag(s4, Flag::N, n, Flag::C);
}

/// The machine after `count` instructions, one after the other.
pub open spec fn run(machine: Machine, count: nat) -> Machine
    decreases count,
{
    if count == 0 {
        machine
    } else {
        run(machine.step().0, (count - 1) as nat)
    }
}

/// Whether the processor of `machine` idles after a `HALT`, with its decoder between
/// two instructions.
pub open spec fn halted(machine: Machine) -> bool {
    &&& machine.cu.status == Status::Halted
    &&& machine.cu.prefix.is_none()
    &&& machine.cu.address_mode.is_none()
}

/// `HALT` halts the processor: the program counter moves past the opcode, and nothing
/// else changes but the clock, which advances by the cost of the opcode fetch and one
/// tic.
pub proof fn lemma_halt(machine: Machine)
    requires
        ready(machine),
        byte_at(machine.devices, machine.cu.regs.pc) == 0x76,
    ensures
        machine.step().1 == Ok::<(), Error>(()),
        halted(machine.step().0),
        machine.step().0.cu.regs == (Registers {
            pc: machine.cu.regs.pc.wrapping_add(1),
            ..machine.cu.regs
        }),
        machine.step().0.devices == machine.devices,
        machine.step().0.tics == machine.tics.wrapping_add(
            access_tics(machine.devices, machine.cu.regs.pc),
        ).wrapping_add(1),
{
}

/// A halted processor idles through a step: it stays halted, the program counter and
/// every other register stand, no device changes, and the clock advances by the cost
/// of one fetch and one tic. With a fetch that costs three tics that is four tics.
pub proof fn lemma_halted_step(machine: Machine)
    requires
        halted(machine),
    ensures
        machine.step().1 == Ok::<(), Error>(()),
        machine.step().0.cu == machine.cu,
        machine.step().0.devices == machine.devices,
        machine.step().0.tics == machine.tics.wrapping_add(
            access_tics(machine.devices, machine.cu.regs.pc),
        ).wrapping_add(1),
        access_tics(machine.devices, machine.cu.regs.pc) == 3 ==> machine.step().0.tics
            == machine.tics.wrapping_add(4),
{
}

/// Once halted, the processor stays halted through any number of steps. The program
/// counter and every other register stand, no device changes, and with a fetch that
/// costs three tics the clock advances by four tics a step.
pub proof fn lemma_halted_run(machine: Machine, count: nat)
    requires
        halted(machine),
    ensures
        run(machine, count).cu == machine.cu,
        run(machine, count).devices == machine.devices,
        access_tics(machine.devices, machine.cu.regs.pc) == 3 ==> run(machine, count).tics == (
        machine.tics + 4 * count) % 0x1_0000_0000,
    decreases count,
{
    if count > 0 {
        lemma_halted_step(machine);
        lemma_halted_run(machine.step().0, (count - 1) as nat);
    }
}

/// Whether one read or write costs `tics` at every address. Every address is then
/// covered by a device, unless `tics` is zero.
pub open spec fn costs_everywhere(devices: Seq<DeviceModel>, tics: u32) -> bool {
    forall|address: u16| #[trigger] access_tics(devices, address) == tics
}

/// The tics that an instruction takes on a machine whose every memory access costs
/// three tics, from its first byte to its last. `prefixed` tells whether the byte
/// `DD` or `FD` stands before the opcode, which brings an index register into effect
/// for a memory operand.
pub open spec fn documented_tics(instruction: Instruction, prefixed: bool) -> u32 {
    match instruction {
        Instruction::Nop | Instruction::Halt | Instruction::LdRR { .. } => if prefixed {
            8
        } else {
            4
        },
        Instruction::LdRHl { .. } | Instruction::LdHlR { .. } => if prefixed {
            19
        } else {
            7
        },
        Instruction::LdRN { .. } => if prefixed {
            11
        } else {
            7
        },
        Instruction::LdHlN => if prefixed {
            19
        } else {
            10
        },
        Instruction::LdBcA | Instruction::LdDeA | Instruction::LdABc | Instruction::LdADe => if prefixed {
            11
        } else {
            7
        },
        Instruction::LdNnA | Instruction::LdANn => if prefixed {
            17
        } else {
            13
        },
        Instruction::LdAI => 9,
    }
}

/// The tics that carrying out an instruction takes once its opcode is fetched, on a
/// machine whose every memory access costs three tics: those of its operand accesses
/// and those that the processor spends itself. `indexed` tells whether an index
/// register is in effect.
pub open spec fn performed_tics(instruction: Instruction, indexed: bool) -> u32 {
    match instruction {
        Instruction::Nop | Instruction::Halt | Instruction::LdRR { .. } => 1,
        Instruction::LdRHl { .. } | Instruction::LdHlR { .. } => if indexed {
            12
        } else {
            4
        },
        Instruction::LdRN { .. } => 4,
        Instruction::LdHlN => if indexed {
            12
        } else {
            7
        },
        Instruction::LdBcA | Instruction::LdDeA | Instruction::LdABc | Instruction::LdADe => 4,
        Instruction::LdNnA | Instruction::LdANn => 10,
        Instruction::LdAI => 2,
    }
}

/// The documented tics of an instruction are the three of its opcode fetch and those
/// of carrying it out, and the four of its prefix besides where it has one: `DD` or
/// `FD` before an instruction of the main table, `ED` before `LD A,I`.
pub proof fn lemma_documented_tics_sum(tics: u32, instruction: Instruction)
    ensures
        instruction != Instruction::LdAI ==> tics.wrapping_add(3).wrapping_add(
            performed_tics(instruction, false),
        ) == tics.wrapping_add(documented_tics(instruction, false)),
        instruction != Instruction::LdAI ==> tics.wrapping_add(3).wrapping_add(1).wrapping_add(
            3,
        ).wrapping_add(performed_tics(instruction, true)) == tics.wrapping_add(
            documented_tics(instruction, true),
        ),
        instruction == Instruction::LdAI ==> tics.wrapping_add(3).wrapping_add(1).wrapping_add(
            3,
        ).wrapping_add(performed_tics(instruction, false)) == tics.wrapping_add(
            documented_tics(instruction, false),
        ),
{
}

/// Carrying out an instruction takes `performed_tics` on a machine whose every memory
/// access costs three tics.
pub proof fn lemma_perform_tics(machine: Machine, instruction: Instruction)
    requires
        costs_everywhere(machine.devices, 3),
    ensures
        machine.perform(instruction).tics == machine.tics.wrapping_add(
            performed_tics(instruction, machine.cu.address_mode.is_some()),
        ),
{
    let devices = machine.devices;
    let pc = machine.cu.regs.pc;
    let main = machine.cu.regs.main;
    assert(access_tics(devices, pc) == 3);
    assert(access_tics(devices, pc.wrapping_add(1)) == 3);
    assert(word_tics(devices, pc) == 6);
    let (formed, address) = machine.effective_address();
    assert(formed.devices == devices);
    assert(access_tics(devices, address) == 3);
    assert(access_tics(devices, formed.cu.regs.pc) == 3);
    assert(machine.cu.address_mode.is_none() ==> formed.tics == machine.tics);
    assert(machine.cu.address_mode.is_some() ==> formed.tics == machine.tics.wrapping_add(5));
    match instruction {
        Instruction::LdRHl { dst } => {
            let (after, value) = formed.read(address);
            assert(after.tics == formed.tics.wrapping_add(3));
            let done = after.with_main(main.with_reg(dst, value)).debit(
                machine.memory_operand_tics(),
            );
            assert(machine.perform(instruction) == done);
        },
        Instruction::LdHlR { src } => {
            assert(formed.write(address, main.reg(src)).tics == formed.tics.wrapping_add(3));
        },
        Instruction::LdHlN => {
            let (after, value) = formed.next_byte();
            assert(after.tics == formed.tics.wrapping_add(3));
            assert(after.devices == devices);
            assert(after.write(address, value).tics == after.tics.wrapping_add(3));
        },
        Instruction::LdNnA => {
            let (after, target) = machine.next_word();
            assert(after.tics == machine.tics.wrapping_add(6));
            assert(after.devices == devices);
            assert(access_tics(devices, target) == 3);
            assert(after.write(target, main.a).tics == after.tics.wrapping_add(3));
        },
        Instruction::LdANn => {
            let (fetched, target) = machine.next_word();
            assert(fetched.tics == machine.tics.wrapping_add(6));
            assert(fetched.devices == devices);
            assert(access_tics(devices, target) == 3);
            assert(fetched.read(target).0.tics == fetched.tics.wrapping_add(3));
        },
        Instruction::LdBcA => {
            assert(access_tics(devices, main.bc_value()) == 3);
        },
        Instruction::LdDeA => {
            assert(access_tics(devices, main.de_value()) == 3);
        },
        Instruction::LdABc => {
            assert(access_tics(devices, main.bc_value()) == 3);
        },
        Instruction::LdADe => {
            assert(access_tics(devices, main.de_value()) == 3);
        },
        _ => {},
    }
}

/// Every instruction takes the documented number of tics, whatever the registers and
/// the memory hold, on a machine whose every memory access costs three tics: four for
/// `NOP`, `HALT` and `LD r,r'`; seven for a load between a register and the byte at
/// HL, BC or DE or an immediate byte; ten for `LD (HL),n`; thirteen for a load between
/// A and a direct address; nine for `LD A,I`. After `DD` or `FD` an instruction with
/// a memory operand takes nineteen tics, and any other four tics more than without
/// the prefix.
pub proof fn lemma_documented_tics(machine: Machine)
    requires
        ready(machine),
        costs_everywhere(machine.devices, 3),
    ensures
        ({
            let first = byte_at(machine.devices, machine.cu.regs.pc);
            let second = byte_at(machine.devices, machine.cu.regs.pc.wrapping_add(1));
            let (after, result) = machine.step();
            &&& main_instruction(first) matches Some(instruction) ==> result.is_ok() && after.tics
                == machine.tics.wrapping_add(documented_tics(instruction, false))
            &&& (first == 0xDD || first == 0xFD) ==> (main_instruction(second) matches Some(
                instruction,
            ) ==> result.is_ok() && after.tics == machine.tics.wrapping_add(
                documented_tics(instruction, true),
            ))
            &&& first == 0xED ==> (extended_instruction(second) matches Some(instruction)
                ==> result.is_ok() && after.tics == machine.tics.wrapping_add(
                documented_tics(instruction, false),
            ))
        }),
{
    let pc = machine.cu.regs.pc;
    let first = byte_at(machine.devices, pc);
    let second = byte_at(machine.devices, pc.wrapping_add(1));
    assert(access_tics(machine.devices, pc) == 3);
    assert(access_tics(machine.devices, pc.wrapping_add(1)) == 3);
    let (fetched, opcode) = machine.fetch();
    let (opened, result) = machine.advance();
    match main_instruction(first) {
        Some(instruction) => {
            lemma_perform_tics(fetched, instruction);
            lemma_documented_tics_sum(machine.tics, instruction);
        },
        None => {
            if first == 0xDD || first == 0xFD {
                assert(machine.step() == opened.step());
                let (fetched_again, opcode_again) = opened.fetch();
                assert(opcode_again == second);
                match main_instruction(second) {
                    Some(instruction) => {
                        lemma_perform_tics(fetched_again, instruction);
                        lemma_documented_tics_sum(machine.tics, instruction);
                    },
                    None => {},
                }
            } else if first == 0xED {
                assert(machine.step() == opened.step());
                let (fetched_again, opcode_again) = opened.fetch();
                assert(opcode_again == second);
                match extended_instruction(second) {
                    Some(instruction) => {
                        lemma_perform_tics(fetched_again, instruction);
                        lemma_documented_tics_sum(machine.tics, instruction);
                    },
                    None => {},
                }
            }
        },
    }
}

/// An instruction fails in one way only: on a byte that the table in effect does not
/// know. It never fails on a register index.
pub proof fn lemma_step_fails_on_unknown_opcode_only(machine: Machine)
    ensures
        machine.step().1 matches Err(error) ==> error matches Error::UnknownOpcode { .. },
    decreases prefix_rank(machine.cu.prefix),
{
    let (after, result) = machine.advance();
    if result.is_ok() && after.cu.prefix.is_some() && prefix_rank(after.cu.prefix) < prefix_rank(
        machine.cu.prefix,
    ) {
        lemma_step_fails_on_unknown_opcode_only(after);
    }
}

} // verus!
