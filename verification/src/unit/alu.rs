use crate::instruction::{AluInstruction, IType, RType, UType};
use crate::unit::{FetchResult, RegisterWrite};
use vstd::prelude::*;

verus! {

/// 1 if `a` is less than `b` as signed 32-bit values, else 0.
pub open spec fn set_less_than_spec(a: u32, b: u32) -> u32 {
    if (a as i32) < (b as i32) {
        1u32
    } else {
        0u32
    }
}

/// 1 if `a` is less than `b` as unsigned 32-bit values, else 0.
pub open spec fn set_less_than_unsigned_spec(a: u32, b: u32) -> u32 {
    if a < b {
        1u32
    } else {
        0u32
    }
}

/// `a` shifted right arithmetically (sign-preserving) by the low five bits
/// of `shift_by`.
pub open spec fn arithmetic_shift_spec(a: u32, shift_by: u32) -> u32 {
    (a as i32).wrapping_shr(shift_by) as u32
}

/// The register write the ALU produces for `instruction`, as a function of
/// the decode-time operand snapshots and the captured program counter. All
/// arithmetic wraps modulo 2^32 and shift amounts are taken modulo 32;
/// no operand combination faults. SUB yields the first operand minus the
/// second, and the shift instructions shift the first operand by the
/// second.
pub open spec fn alu_spec(fetch_result: FetchResult, instruction: AluInstruction) -> RegisterWrite {
    match instruction {
        AluInstruction::LUI(instr) => RegisterWrite {
            index: instr.register_destination_index,
            value: instr.immediate,
        },
        AluInstruction::AUIPC(instr) => RegisterWrite {
            index: instr.register_destination_index,
            value: fetch_result.captured_pc.wrapping_add(instr.immediate),
        },
        AluInstruction::ADDI(instr) => RegisterWrite {
            index: instr.register_destination_index,
            value: instr.register_source_one.value.wrapping_add(instr.immediate),
        },
        AluInstruction::SLTI(instr) => RegisterWrite {
            index: instr.register_destination_index,
            value: set_less_than_spec(instr.register_source_one.value, instr.immediate),
        },
        AluInstruction::SLTIU(instr) => RegisterWrite {
            index: instr.register_destination_index,
            value: set_less_than_unsigned_spec(instr.register_source_one.value, instr.immediate),
        },
        AluInstruction::XORI(instr) => RegisterWrite {
            index: instr.register_destination_index,
            value: instr.register_source_one.value ^ instr.immediate,
        },
        AluInstruction::ORI(instr) => RegisterWrite {
            index: instr.register_destination_index,
            value: instr.register_source_one.value | instr.immediate,
        },
        AluInstruction::ANDI(instr) => RegisterWrite {
            index: instr.register_destination_index,
            value: instr.register_source_one.value & instr.immediate,
        },
        AluInstruction::SLLI(instr) => RegisterWrite {
            index: instr.register_destination_index,
            value: instr.register_source_one.value.wrapping_shl(
                instr.register_source_two.value,
            ),
        },
        AluInstruction::SRLI(instr) => RegisterWrite {
            index: instr.register_destination_index,
            value: instr.register_source_one.value.wrapping_shr(
                instr.register_source_two.value,
            ),
        },
        AluInstruction::SRAI(instr) => RegisterWrite {
            index: instr.register_destination_index,
            value: arithmetic_shift_spec(
                instr.register_source_one.value,
                instr.register_source_two.value,
            ),
        },
        AluInstruction::ADD(instr) => RegisterWrite {
            index: instr.register_destination_index,
            value: instr.register_source_one.value.wrapping_add(
                instr.register_source_two.value,
            ),
        },
        AluInstruction::SUB(instr) => RegisterWrite {
            index: instr.register_destination_index,
            value: instr.register_source_one.value.wrapping_sub(
                instr.register_source_two.value,
            ),
        },
        AluInstruction::SLL(instr) => RegisterWrite {
            index: instr.register_destination_index,
            value: instr.register_source_one.value.wrapping_shl(
                instr.register_source_two.value,
            ),
        },
        AluInstruction::SLT(instr) => RegisterWrite {
            index: instr.register_destination_index,
            value: set_less_than_spec(
                instr.register_source_one.value,
                instr.register_source_two.value,
            ),
        },
        AluInstruction::SLTU(instr) => RegisterWrite {
            index: instr.register_destination_index,
            value: set_less_than_unsigned_spec(
                instr.register_source_one.value,
                instr.register_source_two.value,
            ),
        },
        AluInstruction::XOR(instr) => RegisterWrite {
            index: instr.register_destination_index,
            value: instr.register_source_one.value ^ instr.register_source_two.value,
        },
        AluInstruction::SRL(instr) => RegisterWrite {
            index: instr.register_destination_index,
            value: instr.register_source_one.value.wrapping_shr(
                instr.register_source_two.value,
            ),
        },
        AluInstruction::SRA(instr) => RegisterWrite {
            index: instr.register_destination_index,
            value: arithmetic_shift_spec(
                instr.register_source_one.value,
                instr.register_source_two.value,
            ),
        },
        AluInstruction::OR(instr) => RegisterWrite {
            index: instr.register_destination_index,
            value: instr.register_source_one.value | instr.register_source_two.value,
        },
        AluInstruction::AND(instr) => RegisterWrite {
            index: instr.register_destination_index,
            value: instr.register_source_one.value & instr.register_source_two.value,
        },
    }
}

/// The destination register an ALU instruction writes: `alu_spec` always
/// targets this index, whatever the operands.
pub open spec fn alu_destination(instruction: AluInstruction) -> u32 {
    match instruction {
        AluInstruction::LUI(instr) => instr.register_destination_index,
        AluInstruction::AUIPC(instr) => instr.register_destination_index,
        AluInstruction::ADDI(instr) => instr.register_destination_index,
        AluInstruction::SLTI(instr) => instr.register_destination_index,
        AluInstruction::SLTIU(instr) => instr.register_destination_index,
        AluInstruction::XORI(instr) => instr.register_destination_index,
        AluInstruction::ORI(instr) => instr.register_destination_index,
        AluInstruction::ANDI(instr) => instr.register_destination_index,
        AluInstruction::SLLI(instr) => instr.register_destination_index,
        AluInstruction::SRLI(instr) => instr.register_destination_index,
        AluInstruction::SRAI(instr) => instr.register_destination_index,
        AluInstruction::ADD(instr) => instr.register_destination_index,
        AluInstruction::SUB(instr) => instr.register_destination_index,
        AluInstruction::SLL(instr) => instr.register_destination_index,
        AluInstruction::SLT(instr) => instr.register_destination_index,
        AluInstruction::SLTU(instr) => instr.register_destination_index,
        AluInstruction::XOR(instr) => instr.register_destination_index,
        AluInstruction::SRL(instr) => instr.register_destination_index,
        AluInstruction::SRA(instr) => instr.register_destination_index,
        AluInstruction::OR(instr) => instr.register_destination_index,
        AluInstruction::AND(instr) => instr.register_destination_index,
    }
}

/// Runs the ALU on one decoded instruction. Total: every operand
/// combination yields a register write, overflow wraps and never faults.
pub fn execute(fetch_result: FetchResult, decode_result: AluInstruction) -> (register_write:
    RegisterWrite)
    ensures
        register_write == alu_spec(fetch_result, decode_result),
{
    match decode_result {
        AluInstruction::LUI(instr) => lui(instr),
        AluInstruction::AUIPC(instr) => auipc(fetch_result, instr),
        AluInstruction::ADDI(instr) => addi(instr),
        AluInstruction::SLTI(instr) => slti(instr),
        AluInstruction::SLTIU(instr) => sltiu(instr),
        AluInstruction::XORI(instr) => xori(instr),
        AluInstruction::ORI(instr) => ori(instr),
        AluInstruction::ANDI(instr) => andi(instr),
        AluInstruction::SLLI(instr) => slli(instr),
        AluInstruction::SRLI(instr) => srli(instr),
        AluInstruction::SRAI(instr) => srai(instr),
        AluInstruction::ADD(instr) => add_op(instr),
        AluInstruction::SUB(instr) => sub_op(instr),
        AluInstruction::SLT(instr) => slt(instr),
        AluInstruction::SLTU(instr) => sltu(instr),
        AluInstruction::XOR(instr) => xor(instr),
        AluInstruction::SLL(instr) => sll(instr),
        AluInstruction::SRL(instr) => srl(instr),
        AluInstruction::SRA(instr) => sra(instr),
        AluInstruction::OR(instr) => or(instr),
        AluInstruction::AND(instr) => and(instr),
    }
}

fn lui(instr: UType) -> (register_write: RegisterWrite)
    ensures
        register_write.index == instr.register_destination_index,
        register_write.value == instr.immediate,
{
    RegisterWrite { index: instr.register_destination_index, value: instr.immediate }
}

fn auipc(fetch_result: FetchResult, instr: UType) -> (register_write: RegisterWrite)
    ensures
        register_write.index == instr.register_destination_index,
        register_write.value == fetch_result.captured_pc.wrapping_add(instr.immediate),
{
    RegisterWrite {
        index: instr.register_destination_index,
        value: fetch_result.captured_pc.wrapping_add(instr.immediate),
    }
}

fn addi(instr: IType) -> (register_write: RegisterWrite)
    ensures
        register_write.index == instr.register_destination_index,
        register_write.value == instr.register_source_one.value.wrapping_add(instr.immediate),
{
    RegisterWrite {
        index: instr.register_destination_index,
        value: instr.register_source_one.value.wrapping_add(instr.immediate),
    }
}

fn slti(instr: IType) -> (register_write: RegisterWrite)
    ensures
        register_write.index == instr.register_destination_index,
        register_write.value == set_less_than_spec(instr.register_source_one.value, instr.immediate),
{
    RegisterWrite {
        index: instr.register_destination_index,
        value: set_less_than(instr.register_source_one.value, instr.immediate),
    }
}

fn sltiu(instr: IType) -> (register_write: RegisterWrite)
    ensures
        register_write.index == instr.register_destination_index,
        register_write.value == set_less_than_unsigned_spec(
            instr.register_source_one.value,
            instr.immediate,
        ),
{
    RegisterWrite {
        index: instr.register_destination_index,
        value: set_less_than_unsigned(instr.register_source_one.value, instr.immediate),
    }
}

fn xori(instr: IType) -> (register_write: RegisterWrite)
    ensures
        register_write.index == instr.register_destination_index,
        register_write.value == instr.register_source_one.value ^ instr.immediate,
{
    RegisterWrite {
        index: instr.register_destination_index,
        value: instr.register_source_one.value ^ instr.immediate,
    }
}

fn ori(instr: IType) -> (register_write: RegisterWrite)
    ensures
        register_write.index == instr.register_destination_index,
        register_write.value == instr.register_source_one.value | instr.immediate,
{
    RegisterWrite {
        index: instr.register_destination_index,
        value: instr.register_source_one.value | instr.immediate,
    }
}

fn andi(instr: IType) -> (register_write: RegisterWrite)
    ensures
        register_write.index == instr.register_destination_index,
        register_write.value == instr.register_source_one.value & instr.immediate,
{
    RegisterWrite {
        index: instr.register_destination_index,
        value: instr.register_source_one.value & instr.immediate,
    }
}

fn slli(instr: RType) -> (register_write: RegisterWrite)
    ensures
        register_write.index == instr.register_destination_index,
        register_write.value == instr.register_source_one.value.wrapping_shl(instr.register_source_two.value),
{
    RegisterWrite {
        index: instr.register_destination_index,
        value: instr.register_source_one.value.wrapping_shl(instr.register_source_two.value),
    }
}

fn srli(instr: RType) -> (register_write: RegisterWrite)
    ensures
        register_write.index == instr.register_destination_index,
        register_write.value == instr.register_source_one.value.wrapping_shr(instr.register_source_two.value),
{
    RegisterWrite {
        index: instr.register_destination_index,
        value: instr.register_source_one.value.wrapping_shr(instr.register_source_two.value),
    }
}

fn srai(instr: RType) -> (register_write: RegisterWrite)
    ensures
        register_write.index == instr.register_destination_index,
        register_write.value == arithmetic_shift_spec(instr.register_source_one.value, instr.register_source_two.value),
{
    RegisterWrite {
        index: instr.register_destination_index,
        value: arithmetic_shift(
            instr.register_source_one.value,
            instr.register_source_two.value,
        ),
    }
}

fn add_op(instr: RType) -> (register_write: RegisterWrite)
    ensures
        register_write.index == instr.register_destination_index,
        register_write.value == instr.register_source_one.value.wrapping_add(instr.register_source_two.value),
{
    RegisterWrite {
        index: instr.register_destination_index,
        value: instr.register_source_one.value.wrapping_add(instr.register_source_two.value),
    }
}

fn sub_op(instr: RType) -> (register_write: RegisterWrite)
    ensures
        register_write.index == instr.register_destination_index,
        register_write.value == instr.register_source_one.value.wrapping_sub(instr.register_source_two.value),
{
    RegisterWrite {
        index: instr.register_destination_index,
        value: instr.register_source_one.value.wrapping_sub(instr.register_source_two.value),
    }
}

fn slt(instr: RType) -> (register_write: RegisterWrite)
    ensures
        register_write.index == instr.register_destination_index,
        register_write.value == set_less_than_spec(instr.register_source_one.value, instr.register_source_two.value),
{
    RegisterWrite {
        index: instr.register_destination_index,
        value: set_less_than(instr.register_source_one.value, instr.register_source_two.value),
    }
}

fn sltu(instr: RType) -> (register_write: RegisterWrite)
    ensures
        register_write.index == instr.register_destination_index,
        register_write.value == set_less_than_unsigned_spec(instr.register_source_one.value, instr.register_source_two.value),
{
    RegisterWrite {
        index: instr.register_destination_index,
        value: set_less_than_unsigned(
            instr.register_source_one.value,
            instr.register_source_two.value,
        ),
    }
}

fn xor(instr: RType) -> (register_write: RegisterWrite)
    ensures
        register_write.index == instr.register_destination_index,
        register_write.value == instr.register_source_one.value ^ instr.register_source_two.value,
{
    RegisterWrite {
        index: instr.register_destination_index,
        value: instr.register_source_one.value ^ instr.register_source_two.value,
    }
}

fn sll(instr: RType) -> (register_write: RegisterWrite)
    ensures
        register_write.index == instr.register_destination_index,
        register_write.value == instr.register_source_one.value.wrapping_shl(instr.register_source_two.value),
{
    RegisterWrite {
        index: instr.register_destination_index,
        value: instr.register_source_one.value.wrapping_shl(instr.register_source_two.value),
    }
}

fn srl(instr: RType) -> (register_write: RegisterWrite)
    ensures
        register_write.index == instr.register_destination_index,
        register_write.value == instr.register_source_one.value.wrapping_shr(instr.register_source_two.value),
{
    RegisterWrite {
        index: instr.register_destination_index,
        value: instr.register_source_one.value.wrapping_shr(instr.register_source_two.value),
    }
}

fn sra(instr: RType) -> (register_write: RegisterWrite)
    ensures
        register_write.index == instr.register_destination_index,
        register_write.value == arithmetic_shift_spec(instr.register_source_one.value, instr.register_source_two.value),
{
    RegisterWrite {
        index: instr.register_destination_index,
        value: arithmetic_shift(
            instr.register_source_one.value,
            instr.register_source_two.value,
        ),
    }
}

fn or(instr: RType) -> (register_write: RegisterWrite)
    ensures
        register_write.index == instr.register_destination_index,
        register_write.value == instr.register_source_one.value | instr.register_source_two.value,
{
    RegisterWrite {
        index: instr.register_destination_index,
        value: instr.register_source_one.value | instr.register_source_two.value,
    }
}

fn and(instr: RType) -> (register_write: RegisterWrite)
    ensures
        register_write.index == instr.register_destination_index,
        register_write.value == instr.register_source_one.value & instr.register_source_two.value,
{
    RegisterWrite {
        index: instr.register_destination_index,
        value: instr.register_source_one.value & instr.register_source_two.value,
    }
}

fn set_less_than(a: u32, b: u32) -> (r: u32)
    ensures
        r == set_less_than_spec(a, b),
{
    if (a as i32) < (b as i32) {
        1
    } else {
        0
    }
}

fn set_less_than_unsigned(a: u32, b: u32) -> (r: u32)
    ensures
        r == set_less_than_unsigned_spec(a, b),
{
    if a < b {
        1
    } else {
        0
    }
}

fn arithmetic_shift(a: u32, shift_by: u32) -> (r: u32)
    ensures
        r == arithmetic_shift_spec(a, shift_by),
{
    (a as i32).wrapping_shr(shift_by) as u32
}

} // verus!
