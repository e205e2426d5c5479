use vstd::prelude::*;

verus! {

/// The RV32I opcode groups: the low 7 bits of an instruction word select
/// its encoding format and broad operation category.
pub const LUI: u32 = 0b0110111;

pub const AUIPC: u32 = 0b0010111;

pub const JAL: u32 = 0b1101111;

pub const JALR: u32 = 0b1100111;

pub const BRANCHING: u32 = 0b1100011;

pub const LOAD: u32 = 0b0000011;

pub const STORE: u32 = 0b0100011;

pub const ALU_IMMEDIATE: u32 = 0b0010011;

pub const ALU: u32 = 0b0110011;

} // verus!
