pub mod full_opcode_constants;
pub mod opcode_group_constants;

use vstd::prelude::*;

verus! {

/// A register index paired with the value read from the register file at
/// decode time. This snapshot is the only way operand values reach the
/// later pipeline stages: no stage re-reads the register file, so a write
/// that lands after decode does not affect an in-flight instruction.
#[derive(Clone, Copy, PartialEq, Eq, Structural, Debug)]
pub struct DecodedRegisterValue {
    pub index: u32,
    pub value: u32,
}

/// The J encoding format: a destination register and a 20-bit sign-extended
/// immediate (JAL).
#[derive(Clone, Copy, PartialEq, Eq, Structural, Debug)]
pub struct JType {
    pub opcode: u32,
    pub full_opcode: u32,
    pub register_destination_index: u32,
    pub immediate: u32,
}

/// The U encoding format: a destination register and the top 20 bits of the
/// word as immediate, low 12 bits zero (LUI, AUIPC).
#[derive(Clone, Copy, PartialEq, Eq, Structural, Debug)]
pub struct UType {
    pub opcode: u32,
    pub full_opcode: u32,
    pub register_destination_index: u32,
    pub immediate: u32,
}

/// The B encoding format: two source operands and a sign-extended even
/// byte offset as immediate (conditional branches).
#[derive(Clone, Copy, PartialEq, Eq, Structural, Debug)]
pub struct BType {
    pub opcode: u32,
    pub full_opcode: u32,
    pub register_source_one: DecodedRegisterValue,
    pub register_source_two: DecodedRegisterValue,
    pub immediate: u32,
}

/// The S encoding format: two source operands and a 12-bit sign-extended
/// immediate (stores).
#[derive(Clone, Copy, PartialEq, Eq, Structural, Debug)]
pub struct SType {
    pub opcode: u32,
    pub full_opcode: u32,
    pub register_source_one: DecodedRegisterValue,
    pub register_source_two: DecodedRegisterValue,
    pub immediate: u32,
}

/// The I encoding format: a destination register, one source operand and a
/// 12-bit sign-extended immediate (ALU immediates, loads, JALR).
#[derive(Clone, Copy, PartialEq, Eq, Structural, Debug)]
pub struct IType {
    pub opcode: u32,
    pub full_opcode: u32,
    pub register_destination_index: u32,
    pub register_source_one: DecodedRegisterValue,
    pub immediate: u32,
}

/// The R encoding format: a destination register and two source operands
/// (register-register ALU operations, and the shift-with-immediate
/// instructions, whose shift-amount field is decoded like a second source
/// register).
#[derive(Clone, Copy, PartialEq, Eq, Structural, Debug)]
pub struct RType {
    pub opcode: u32,
    pub full_opcode: u32,
    pub register_destination_index: u32,
    pub register_source_one: DecodedRegisterValue,
    pub register_source_two: DecodedRegisterValue,
}

/// A decoded instruction, grouped by the execution unit that handles it.
#[derive(Clone, Copy, PartialEq, Eq, Structural, Debug)]
pub enum Instruction {
    Alu(AluInstruction),
    Branching(BranchingInstruction),
    MemoryLoad(MemoryLoadInstruction),
    MemoryStore(MemoryStoreInstruction),
}

/// The arithmetic/logic instructions: each produces one register write.
#[derive(Clone, Copy, PartialEq, Eq, Structural, Debug)]
pub enum AluInstruction {
    LUI(UType),
    AUIPC(UType),
    ADDI(IType),
    SLTI(IType),
    SLTIU(IType),
    XORI(IType),
    ORI(IType),
    ANDI(IType),
    SLLI(RType),
    SRLI(RType),
    SRAI(RType),
    ADD(RType),
    SUB(RType),
    SLL(RType),
    SLT(RType),
    SLTU(RType),
    XOR(RType),
    SRL(RType),
    SRA(RType),
    OR(RType),
    AND(RType),
}

/// The control-transfer instructions: each may yield a new program counter.
#[derive(Clone, Copy, PartialEq, Eq, Structural, Debug)]
pub enum BranchingInstruction {
    JAL(JType),
    JALR(IType),
    BEQ(BType),
    BNE(BType),
    BLT(BType),
    BGE(BType),
    BLTU(BType),
    BGEU(BType),
}

/// The load instructions: each reads the bus and produces a register write.
#[derive(Clone, Copy, PartialEq, Eq, Structural, Debug)]
pub enum MemoryLoadInstruction {
    LB(IType),
    LH(IType),
    LW(IType),
    LBU(IType),
    LHU(IType),
}

/// The store instructions: each writes the bus.
#[derive(Clone, Copy, PartialEq, Eq, Structural, Debug)]
pub enum MemoryStoreInstruction {
    SB(SType),
    SH(SType),
    SW(SType),
}

} // verus!
