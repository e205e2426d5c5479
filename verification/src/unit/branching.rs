use crate::instruction::{BType, BranchingInstruction, IType, JType};
use crate::unit::FetchResult;
use vstd::prelude::*;

verus! {

/// The control-transfer decision for `instruction`: `Some(target)` when
/// control transfers to `target`, `None` when execution falls through.
/// JAL and JALR transfer unconditionally; the conditional branches compare
/// the two decode-time operand snapshots (signed for BLT/BGE, unsigned for
/// BLTU/BGEU). Every target is computed with wrapping addition.
pub open spec fn branch_spec(fetch_result: FetchResult, instruction: BranchingInstruction) -> Option<
    u32,
> {
    match instruction {
        BranchingInstruction::JAL(instr) => Some(
            fetch_result.captured_pc.wrapping_add(instr.immediate),
        ),
        BranchingInstruction::JALR(instr) => Some(
            instr.register_source_one.value.wrapping_add(instr.immediate),
        ),
        BranchingInstruction::BEQ(instr) => if instr.register_source_one.value
            == instr.register_source_two.value {
            Some(fetch_result.captured_pc.wrapping_add(instr.immediate))
        } else {
            None
        },
        BranchingInstruction::BNE(instr) => if instr.register_source_one.value
            != instr.register_source_two.value {
            Some(fetch_result.captured_pc.wrapping_add(instr.immediate))
        } else {
            None
        },
        BranchingInstruction::BLT(instr) => if (instr.register_source_one.value as i32) < (
        instr.register_source_two.value as i32) {
            Some(fetch_result.captured_pc.wrapping_add(instr.immediate))
        } else {
            None
        },
        BranchingInstruction::BGE(instr) => if (instr.register_source_one.value as i32) >= (
        instr.register_source_two.value as i32) {
            Some(fetch_result.captured_pc.wrapping_add(instr.immediate))
        } else {
            None
        },
        BranchingInstruction::BLTU(instr) => if instr.register_source_one.value
            < instr.register_source_two.value {
            Some(fetch_result.captured_pc.wrapping_add(instr.immediate))
        } else {
            None
        },
        BranchingInstruction::BGEU(instr) => if instr.register_source_one.value
            >= instr.register_source_two.value {
            Some(fetch_result.captured_pc.wrapping_add(instr.immediate))
        } else {
            None
        },
    }
}

/// Resolves one control-transfer instruction against the decode-time
/// operand snapshots.
pub fn branch(fetch_result: FetchResult, decode_result: BranchingInstruction) -> (target: Option<
    u32,
>)
    ensures
        target == branch_spec(fetch_result, decode_result),
{
    match decode_result {
        BranchingInstruction::JAL(instr) => jal(fetch_result, instr),
        BranchingInstruction::JALR(instr) => jalr(instr),
        BranchingInstruction::BEQ(instr) => beq(fetch_result, instr),
        BranchingInstruction::BNE(instr) => bne(fetch_result, instr),
        BranchingInstruction::BLT(instr) => blt(fetch_result, instr),
        BranchingInstruction::BLTU(instr) => bltu(fetch_result, instr),
        BranchingInstruction::BGE(instr) => bge(fetch_result, instr),
        BranchingInstruction::BGEU(instr) => bgeu(fetch_result, instr),
    }
}

fn jal(fetch_result: FetchResult, instr: JType) -> (target: Option<u32>)
    ensures
        target == Some(fetch_result.captured_pc.wrapping_add(instr.immediate)),
{
    Some(fetch_result.captured_pc.wrapping_add(instr.immediate))
}

fn jalr(instr: IType) -> (target: Option<u32>)
    ensures
        target == Some(instr.register_source_one.value.wrapping_add(instr.immediate)),
{
    Some(instr.register_source_one.value.wrapping_add(instr.immediate))
}

fn beq(fetch_result: FetchResult, instr: BType) -> (target: Option<u32>)
    ensures
        target == branch_spec(fetch_result, BranchingInstruction::BEQ(instr)),
{
    if instr.register_source_one.value == instr.register_source_two.value {
        Some(fetch_result.captured_pc.wrapping_add(instr.immediate))
    } else {
        None
    }
}

fn bne(fetch_result: FetchResult, instr: BType) -> (target: Option<u32>)
    ensures
        target == branch_spec(fetch_result, BranchingInstruction::BNE(instr)),
{
    if instr.register_source_one.value != instr.register_source_two.value {
        Some(fetch_result.captured_pc.wrapping_add(instr.immediate))
    } else {
        None
    }
}

fn blt(fetch_result: FetchResult, instr: BType) -> (target: Option<u32>)
    ensures
        target == branch_spec(fetch_result, BranchingInstruction::BLT(instr)),
{
    if (instr.register_source_one.value as i32) < (instr.register_source_two.value as i32) {
        Some(fetch_result.captured_pc.wrapping_add(instr.immediate))
    } else {
        None
    }
}

fn bltu(fetch_result: FetchResult, instr: BType) -> (target: Option<u32>)
    ensures
        target == branch_spec(fetch_result, BranchingInstruction::BLTU(instr)),
{
    if instr.register_source_one.value < instr.register_source_two.value {
        Some(fetch_result.captured_pc.wrapping_add(instr.immediate))
    } else {
        None
    }
}

fn bge(fetch_result: FetchResult, instr: BType) -> (target: Option<u32>)
    ensures
        target == branch_spec(fetch_result, BranchingInstruction::BGE(instr)),
{
    if (instr.register_source_one.value as i32) >= (instr.register_source_two.value as i32) {
        Some(fetch_result.captured_pc.wrapping_add(instr.immediate))
    } else {
        None
    }
}

fn bgeu(fetch_result: FetchResult, instr: BType) -> (target: Option<u32>)
    ensures
        target == branch_spec(fetch_result, BranchingInstruction::BGEU(instr)),
{
    if instr.register_source_one.value >= instr.register_source_two.value {
        Some(fetch_result.captured_pc.wrapping_add(instr.immediate))
    } else {
        None
    }
}

} // verus!
