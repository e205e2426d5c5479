use vstd::prelude::*;

verus! {

/// The final dispatch keys the decoder selects a concrete instruction by.
/// A full opcode combines an instruction's funct7, funct3 and opcode fields
/// as `(funct7 << 10) | (funct3 << 7) | opcode`; formats without a funct7
/// field (and without a funct3 field, for U and J) combine with zero.
pub const LUI: u32 = 0b0110111;

pub const AUIPC: u32 = 0b0010111;

pub const JAL: u32 = 0b1101111;

pub const JALR: u32 = 0b1100111;

pub const BEQ: u32 = (0b000 << 7) | 0b1100011;

pub const BNE: u32 = (0b001 << 7) | 0b1100011;

pub const BLT: u32 = (0b100 << 7) | 0b1100011;

pub const BGE: u32 = (0b101 << 7) | 0b1100011;

pub const BLTU: u32 = (0b110 << 7) | 0b1100011;

pub const BGEU: u32 = (0b111 << 7) | 0b1100011;

pub const LB: u32 = (0b000 << 7) | 0b0000011;

pub const LH: u32 = (0b001 << 7) | 0b0000011;

pub const LW: u32 = (0b010 << 7) | 0b0000011;

pub const LBU: u32 = (0b100 << 7) | 0b0000011;

pub const LHU: u32 = (0b101 << 7) | 0b0000011;

pub const SB: u32 = (0b000 << 7) | 0b0100011;

pub const SH: u32 = (0b001 << 7) | 0b0100011;

pub const SW: u32 = (0b010 << 7) | 0b0100011;

pub const ADDI: u32 = (0b000 << 7) | 0b0010011;

pub const SLTI: u32 = (0b010 << 7) | 0b0010011;

pub const SLTIU: u32 = (0b011 << 7) | 0b0010011;

pub const XORI: u32 = (0b100 << 7) | 0b0010011;

pub const ORI: u32 = (0b110 << 7) | 0b0010011;

pub const ANDI: u32 = (0b111 << 7) | 0b0010011;

pub const SLLI: u32 = (0b0000000 << 10) | (0b001 << 7) | 0b0010011;

pub const SRLI: u32 = (0b0000000 << 10) | (0b101 << 7) | 0b0010011;

pub const SRAI: u32 = (0b0100000 << 10) | (0b101 << 7) | 0b0010011;

pub const ADD: u32 = (0b0000000 << 10) | (0b000 << 7) | 0b0110011;

pub const SUB: u32 = (0b0100000 << 10) | (0b000 << 7) | 0b0110011;

pub const SLL: u32 = (0b0000000 << 10) | (0b001 << 7) | 0b0110011;

pub const SLT: u32 = (0b0000000 << 10) | (0b010 << 7) | 0b0110011;

pub const SLTU: u32 = (0b0000000 << 10) | (0b011 << 7) | 0b0110011;

pub const XOR: u32 = (0b0000000 << 10) | (0b100 << 7) | 0b0110011;

pub const SRL: u32 = (0b0000000 << 10) | (0b101 << 7) | 0b0110011;

pub const SRA: u32 = (0b0100000 << 10) | (0b101 << 7) | 0b0110011;

pub const OR: u32 = (0b0000000 << 10) | (0b110 << 7) | 0b0110011;

pub const AND: u32 = (0b0000000 << 10) | (0b111 << 7) | 0b0110011;

} // verus!
