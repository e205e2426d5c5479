use crate::instruction::full_opcode_constants;
use crate::instruction::opcode_group_constants;
use crate::instruction::{
    AluInstruction, BType, BranchingInstruction, DecodedRegisterValue, IType, Instruction, JType,
    MemoryLoadInstruction, MemoryStoreInstruction, RType, SType, UType,
};
use crate::register_file::RegisterFile;
use crate::unit::FetchResult;
use vstd::prelude::*;

verus! {

/// A raw word that matches no RV32I encoding, together with the address it
/// was fetched from.
#[derive(Clone, Copy, PartialEq, Eq, Structural, Debug)]
pub enum DecodeError {
    BadInstruction { address: u32, instruction: u32 },
}

/// The opcode group: the low 7 bits of an instruction word.
pub open spec fn opcode_spec(instruction: u32) -> u32 {
    instruction & 0x7f
}

/// The funct3 field: bits 14:12 of an instruction word.
pub open spec fn funct_3_spec(instruction: u32) -> u32 {
    (instruction >> 12) & 0x7
}

/// The funct7 field: bits 31:25 of an instruction word.
pub open spec fn funct_7_spec(instruction: u32) -> u32 {
    (instruction >> 25) & 0x7f
}

/// The destination register field: bits 11:7 of an instruction word.
pub open spec fn register_destination_index_spec(instruction: u32) -> u32 {
    (instruction >> 7) & 0x1f
}

/// The first source register field: bits 19:15 of an instruction word.
pub open spec fn register_source_one_index_spec(instruction: u32) -> u32 {
    (instruction >> 15) & 0x1f
}

/// The second source register field: bits 24:20 of an instruction word.
pub open spec fn register_source_two_index_spec(instruction: u32) -> u32 {
    (instruction >> 20) & 0x1f
}

/// The full opcode: funct7, funct3 and opcode combined into one dispatch
/// key. Formats without a funct7 field combine with zero.
pub open spec fn build_full_opcode_spec(opcode: u32, funct_3: u32, funct_7: u32) -> u32 {
    (funct_7 << 10) | (funct_3 << 7) | opcode
}

/// `value`'s low `bits` bits, sign-extended to 32 bits: the value is
/// aligned to the top by a left shift and brought back by an arithmetic
/// right shift, so bit `bits - 1` fills the high bits.
pub open spec fn sign_extend_spec(value: u32, bits: u32) -> u32 {
    ((((value as i32) << ((32 - bits) as u32)) as i32) >> ((32 - bits) as u32)) as u32
}

/// The sign-extended immediate of an I-format word: bits 31:20.
pub open spec fn immediate_i_spec(instruction: u32) -> u32 {
    sign_extend_spec(instruction >> 20, 12)
}

/// The sign-extended immediate of an S-format word: funct7 carries bits
/// 11:5, the destination-register field bits 4:0.
pub open spec fn immediate_s_spec(instruction: u32) -> u32 {
    sign_extend_spec(
        (funct_7_spec(instruction) << 5) | register_destination_index_spec(instruction),
        12,
    )
}

/// The immediate of a U-format word: its top 20 bits, low 12 bits zero.
pub open spec fn immediate_u_spec(instruction: u32) -> u32 {
    instruction & 0xffff_f000
}

/// The sign-extended immediate of a B-format word: an even byte offset,
/// reassembled from the funct7 and destination-register fields into a
/// 13-bit value whose low bit is zero.
pub open spec fn immediate_b_spec(instruction: u32) -> u32 {
    let rd = register_destination_index_spec(instruction);
    let f7 = funct_7_spec(instruction);
    sign_extend_spec(
        ((f7 >> 6) << 12) | ((rd & 0x1) << 11) | ((f7 & 0x3f) << 5) | (rd & 0x1e),
        13,
    )
}

/// The sign-extended immediate of a J-format word, reassembled from its
/// scattered fields into a 20-bit value with a zero low bit.
pub open spec fn immediate_j_spec(instruction: u32) -> u32 {
    let imm_1_to_10 = (instruction & 0x7fe00000) >> 21;
    let imm_11 = (instruction & 0x100000) >> 20;
    let imm_12_to_19 = (instruction & 0xff000) >> 12;
    let imm_20 = (instruction & 0x80000000) >> 31;
    sign_extend_spec(
        (imm_20 << 20) | (imm_12_to_19 << 12) | (imm_11 << 11) | (imm_1_to_10 << 1),
        20,
    )
}

/// What `decode_instruction` yields for a word fetched as `fetch_result`
/// when the registers read as `registers`: the decoded, typed instruction,
/// or the fetched word and address as a decode fault.
pub open spec fn decode_spec(fetch_result: FetchResult, registers: Seq<u32>) -> Result<
    Instruction,
    DecodeError,
> {
    let op = opcode_spec(fetch_result.instruction);
    let f3 = funct_3_spec(fetch_result.instruction);
    if op == opcode_group_constants::LUI || op == opcode_group_constants::AUIPC {
        u_type_spec(fetch_result)
    } else if op == opcode_group_constants::STORE {
        s_type_spec(fetch_result, registers)
    } else if op == opcode_group_constants::BRANCHING {
        b_type_spec(fetch_result, registers)
    } else if op == opcode_group_constants::JALR || op == opcode_group_constants::LOAD {
        i_type_spec(fetch_result, registers)
    } else if op == opcode_group_constants::JAL {
        j_type_spec(fetch_result)
    } else if op == opcode_group_constants::ALU {
        r_type_spec(fetch_result, registers)
    } else if op == opcode_group_constants::ALU_IMMEDIATE {
        if f3 == 0b01 || f3 == 0b101 {
            r_type_spec(fetch_result, registers)
        } else {
            i_type_spec(fetch_result, registers)
        }
    } else {
        bad_instruction_spec(fetch_result)
    }
}

/// The R-format fields of a word, with both source registers read from
/// `registers` at decode time.
pub open spec fn r_type_fields_spec(fetch_result: FetchResult, registers: Seq<u32>) -> RType {
    let w = fetch_result.instruction;
    RType {
        opcode: opcode_spec(w),
        full_opcode: build_full_opcode_spec(opcode_spec(w), funct_3_spec(w), funct_7_spec(w)),
        register_destination_index: register_destination_index_spec(w),
        register_source_one: DecodedRegisterValue {
            index: register_source_one_index_spec(w),
            value: registers[register_source_one_index_spec(w) as int],
        },
        register_source_two: DecodedRegisterValue {
            index: register_source_two_index_spec(w),
            value: registers[register_source_two_index_spec(w) as int],
        },
    }
}

/// Decode of the R-format groups: register-register ALU operations, and
/// the shift-with-immediate instructions, which carry their shift amount
/// in the second source-register field.
pub open spec fn r_type_spec(fetch_result: FetchResult, registers: Seq<u32>) -> Result<
    Instruction,
    DecodeError,
> {
    let op = opcode_spec(fetch_result.instruction);
    let f3 = funct_3_spec(fetch_result.instruction);
    let f7 = funct_7_spec(fetch_result.instruction);
    let decoded = r_type_fields_spec(fetch_result, registers);
    if op == opcode_group_constants::ALU_IMMEDIATE && f7 == 0b0000000 && f3 == 0b001 {
        Ok(Instruction::Alu(AluInstruction::SLLI(decoded)))
    } else if op == opcode_group_constants::ALU_IMMEDIATE && f7 == 0b0000000 && f3 == 0b101 {
        Ok(Instruction::Alu(AluInstruction::SRLI(decoded)))
    } else if op == opcode_group_constants::ALU_IMMEDIATE && f7 == 0b0100000 && f3 == 0b101 {
        Ok(Instruction::Alu(AluInstruction::SRAI(decoded)))
    } else if op == opcode_group_constants::ALU && f7 == 0b0000000 && f3 == 0b000 {
        Ok(Instruction::Alu(AluInstruction::ADD(decoded)))
    } else if op == opcode_group_constants::ALU && f7 == 0b0100000 && f3 == 0b000 {
        Ok(Instruction::Alu(AluInstruction::SUB(decoded)))
    } else if op == opcode_group_constants::ALU && f7 == 0b0000000 && f3 == 0b001 {
        Ok(Instruction::Alu(AluInstruction::SLL(decoded)))
    } else if op == opcode_group_constants::ALU && f7 == 0b0000000 && f3 == 0b010 {
        Ok(Instruction::Alu(AluInstruction::SLT(decoded)))
    } else if op == opcode_group_constants::ALU && f7 == 0b0000000 && f3 == 0b011 {
        Ok(Instruction::Alu(AluInstruction::SLTU(decoded)))
    } else if op == opcode_group_constants::ALU && f7 == 0b0000000 && f3 == 0b100 {
        Ok(Instruction::Alu(AluInstruction::XOR(decoded)))
    } else if op == opcode_group_constants::ALU && f7 == 0b0000000 && f3 == 0b101 {
        Ok(Instruction::Alu(AluInstruction::SRL(decoded)))
    } else if op == opcode_group_constants::ALU && f7 == 0b0100000 && f3 == 0b101 {
        Ok(Instruction::Alu(AluInstruction::SRA(decoded)))
    } else if op == opcode_group_constants::ALU && f7 == 0b0000000 && f3 == 0b110 {
        Ok(Instruction::Alu(AluInstruction::OR(decoded)))
    } else if op == opcode_group_constants::ALU && f7 == 0b0000000 && f3 == 0b111 {
        Ok(Instruction::Alu(AluInstruction::AND(decoded)))
    } else {
        bad_instruction_spec(fetch_result)
    }
}

/// The I-format fields of a word, with the source register read from
/// `registers` at decode time. The full opcode of an I-format instruction
/// combines a zero funct7.
pub open spec fn i_type_fields_spec(fetch_result: FetchResult, registers: Seq<u32>) -> IType {
    let w = fetch_result.instruction;
    IType {
        opcode: opcode_spec(w),
        full_opcode: build_full_opcode_spec(opcode_spec(w), funct_3_spec(w), 0),
        register_destination_index: register_destination_index_spec(w),
        register_source_one: DecodedRegisterValue {
            index: register_source_one_index_spec(w),
            value: registers[register_source_one_index_spec(w) as int],
        },
        immediate: immediate_i_spec(w),
    }
}

/// Decode of the I-format groups: JALR, the loads and the arithmetic/logic
/// immediates.
pub open spec fn i_type_spec(fetch_result: FetchResult, registers: Seq<u32>) -> Result<
    Instruction,
    DecodeError,
> {
    let op = opcode_spec(fetch_result.instruction);
    let f3 = funct_3_spec(fetch_result.instruction);
    let decoded = i_type_fields_spec(fetch_result, registers);
    if op == opcode_group_constants::JALR && f3 == 0b000 {
        Ok(Instruction::Branching(BranchingInstruction::JALR(decoded)))
    } else if op == opcode_group_constants::LOAD && f3 == 0b000 {
        Ok(Instruction::MemoryLoad(MemoryLoadInstruction::LB(decoded)))
    } else if op == opcode_group_constants::LOAD && f3 == 0b100 {
        Ok(Instruction::MemoryLoad(MemoryLoadInstruction::LBU(decoded)))
    } else if op == opcode_group_constants::LOAD && f3 == 0b001 {
        Ok(Instruction::MemoryLoad(MemoryLoadInstruction::LH(decoded)))
    } else if op == opcode_group_constants::LOAD && f3 == 0b101 {
        Ok(Instruction::MemoryLoad(MemoryLoadInstruction::LHU(decoded)))
    } else if op == opcode_group_constants::LOAD && f3 == 0b010 {
        Ok(Instruction::MemoryLoad(MemoryLoadInstruction::LW(decoded)))
    } else if op == opcode_group_constants::ALU_IMMEDIATE && f3 == 0b000 {
        Ok(Instruction::Alu(AluInstruction::ADDI(decoded)))
    } else if op == opcode_group_constants::ALU_IMMEDIATE && f3 == 0b010 {
        Ok(Instruction::Alu(AluInstruction::SLTI(decoded)))
    } else if op == opcode_group_constants::ALU_IMMEDIATE && f3 == 0b011 {
        Ok(Instruction::Alu(AluInstruction::SLTIU(decoded)))
    } else if op == opcode_group_constants::ALU_IMMEDIATE && f3 == 0b100 {
        Ok(Instruction::Alu(AluInstruction::XORI(decoded)))
    } else if op == opcode_group_constants::ALU_IMMEDIATE && f3 == 0b110 {
        Ok(Instruction::Alu(AluInstruction::ORI(decoded)))
    } else if op == opcode_group_constants::ALU_IMMEDIATE && f3 == 0b111 {
        Ok(Instruction::Alu(AluInstruction::ANDI(decoded)))
    } else {
        bad_instruction_spec(fetch_result)
    }
}

/// The S-format fields of a word, with both source registers read from
/// `registers` at decode time.
pub open spec fn s_type_fields_spec(fetch_result: FetchResult, registers: Seq<u32>) -> SType {
    let w = fetch_result.instruction;
    SType {
        opcode: opcode_spec(w),
        full_opcode: build_full_opcode_spec(opcode_spec(w), funct_3_spec(w), 0),
        register_source_one: DecodedRegisterValue {
            index: register_source_one_index_spec(w),
            value: registers[register_source_one_index_spec(w) as int],
        },
        register_source_two: DecodedRegisterValue {
            index: register_source_two_index_spec(w),
            value: registers[register_source_two_index_spec(w) as int],
        },
        immediate: immediate_s_spec(w),
    }
}

/// Decode of the S-format group: the stores.
pub open spec fn s_type_spec(fetch_result: FetchResult, registers: Seq<u32>) -> Result<
    Instruction,
    DecodeError,
> {
    let op = opcode_spec(fetch_result.instruction);
    let f3 = funct_3_spec(fetch_result.instruction);
    let decoded = s_type_fields_spec(fetch_result, registers);
    if op == opcode_group_constants::STORE && f3 == 0b000 {
        Ok(Instruction::MemoryStore(MemoryStoreInstruction::SB(decoded)))
    } else if op == opcode_group_constants::STORE && f3 == 0b001 {
        Ok(Instruction::MemoryStore(MemoryStoreInstruction::SH(decoded)))
    } else if op == opcode_group_constants::STORE && f3 == 0b010 {
        Ok(Instruction::MemoryStore(MemoryStoreInstruction::SW(decoded)))
    } else {
        bad_instruction_spec(fetch_result)
    }
}

/// The U-format fields of a word. The full opcode of a U-format
/// instruction is its opcode group alone.
pub open spec fn u_type_fields_spec(fetch_result: FetchResult) -> UType {
    let w = fetch_result.instruction;
    UType {
        opcode: opcode_spec(w),
        full_opcode: opcode_spec(w),
        register_destination_index: register_destination_index_spec(w),
        immediate: immediate_u_spec(w),
    }
}

/// Decode of the U-format group: LUI and AUIPC.
pub open spec fn u_type_spec(fetch_result: FetchResult) -> Result<Instruction, DecodeError> {
    let op = opcode_spec(fetch_result.instruction);
    let decoded = u_type_fields_spec(fetch_result);
    if op == opcode_group_constants::LUI {
        Ok(Instruction::Alu(AluInstruction::LUI(decoded)))
    } else if op == opcode_group_constants::AUIPC {
        Ok(Instruction::Alu(AluInstruction::AUIPC(decoded)))
    } else {
        bad_instruction_spec(fetch_result)
    }
}

/// The B-format fields of a word, with both source registers read from
/// `registers` at decode time.
pub open spec fn b_type_fields_spec(fetch_result: FetchResult, registers: Seq<u32>) -> BType {
    let w = fetch_result.instruction;
    BType {
        opcode: opcode_spec(w),
        full_opcode: build_full_opcode_spec(opcode_spec(w), funct_3_spec(w), 0),
        register_source_one: DecodedRegisterValue {
            index: register_source_one_index_spec(w),
            value: registers[register_source_one_index_spec(w) as int],
        },
        register_source_two: DecodedRegisterValue {
            index: register_source_two_index_spec(w),
            value: registers[register_source_two_index_spec(w) as int],
        },
        immediate: immediate_b_spec(w),
    }
}

/// Decode of the B-format group: the conditional branches.
pub open spec fn b_type_spec(fetch_result: FetchResult, registers: Seq<u32>) -> Result<
    Instruction,
    DecodeError,
> {
    let op = opcode_spec(fetch_result.instruction);
    let f3 = funct_3_spec(fetch_result.instruction);
    let decoded = b_type_fields_spec(fetch_result, registers);
    if op == opcode_group_constants::BRANCHING && f3 == 0b000 {
        Ok(Instruction::Branching(BranchingInstruction::BEQ(decoded)))
    } else if op == opcode_group_constants::BRANCHING && f3 == 0b001 {
        Ok(Instruction::Branching(BranchingInstruction::BNE(decoded)))
    } else if op == opcode_group_constants::BRANCHING && f3 == 0b100 {
        Ok(Instruction::Branching(BranchingInstruction::BLT(decoded)))
    } else if op == opcode_group_constants::BRANCHING && f3 == 0b101 {
        Ok(Instruction::Branching(BranchingInstruction::BGE(decoded)))
    } else if op == opcode_group_constants::BRANCHING && f3 == 0b110 {
        Ok(Instruction::Branching(BranchingInstruction::BLTU(decoded)))
    } else if op == opcode_group_constants::BRANCHING && f3 == 0b111 {
        Ok(Instruction::Branching(BranchingInstruction::BGEU(decoded)))
    } else {
        bad_instruction_spec(fetch_result)
    }
}

/// The J-format fields of a word. The full opcode of a J-format
/// instruction is its opcode group alone.
pub open spec fn j_type_fields_spec(fetch_result: FetchResult) -> JType {
    let w = fetch_result.instruction;
    JType {
        opcode: opcode_spec(w),
        full_opcode: opcode_spec(w),
        register_destination_index: register_destination_index_spec(w),
        immediate: immediate_j_spec(w),
    }
}

/// Decode of the J-format group: JAL.
pub open spec fn j_type_spec(fetch_result: FetchResult) -> Result<Instruction, DecodeError> {
    let op = opcode_spec(fetch_result.instruction);
    let decoded = j_type_fields_spec(fetch_result);
    if op == opcode_group_constants::JAL {
        Ok(Instruction::Branching(BranchingInstruction::JAL(decoded)))
    } else {
        bad_instruction_spec(fetch_result)
    }
}

/// The decode fault for `fetch_result`: the captured address and the raw
/// word, surfaced unchanged.
pub open spec fn bad_instruction_spec(fetch_result: FetchResult) -> Result<
    Instruction,
    DecodeError,
> {
    Err(
        DecodeError::BadInstruction {
            address: fetch_result.captured_pc,
            instruction: fetch_result.instruction,
        },
    )
}

/// Decodes one fetched word against the current register file. This is the
/// single point where operand values are captured: both source registers
/// are read here and frozen into the decoded instruction. Pure besides
/// those reads; every word either decodes or yields `BadInstruction`.
pub fn decode_instruction(fetch_result: FetchResult, register_file: &RegisterFile) -> (result:
    Result<Instruction, DecodeError>)
    requires
        register_file@.len() == 32,
    ensures
        result == decode_spec(fetch_result, register_file@),
{
    let op = opcode(fetch_result.instruction);
    if op == opcode_group_constants::LUI || op == opcode_group_constants::AUIPC {
        u_type(fetch_result)
    } else if op == opcode_group_constants::STORE {
        s_type(fetch_result, register_file)
    } else if op == opcode_group_constants::BRANCHING {
        b_type(fetch_result, register_file)
    } else if op == opcode_group_constants::JALR || op == opcode_group_constants::LOAD {
        i_type(fetch_result, register_file)
    } else if op == opcode_group_constants::JAL {
        j_type(fetch_result)
    } else if op == opcode_group_constants::ALU {
        r_type(fetch_result, register_file)
    } else if op == opcode_group_constants::ALU_IMMEDIATE {
        let f3 = funct_3(fetch_result.instruction);
        if f3 == 0b01 || f3 == 0b101 {
            r_type(fetch_result, register_file)
        } else {
            i_type(fetch_result, register_file)
        }
    } else {
        bad_instruction(fetch_result)
    }
}

fn r_type(fetch_result: FetchResult, register_file: &RegisterFile) -> (result: Result<
    Instruction,
    DecodeError,
>)
    requires
        register_file@.len() == 32,
    ensures
        result == r_type_spec(fetch_result, register_file@),
{
    let instruction = fetch_result.instruction;
    let opcode = opcode(instruction);
    let funct_3 = funct_3(instruction);
    let funct_7 = funct_7(instruction);

    let rs1 = register_source_one_index(instruction);
    let rs2 = register_source_two_index(instruction);

    proof {
        lemma_register_index_bounds(instruction);
    }
    let rs1_value = register_file.read(rs1 as usize);
    let rs2_value = register_file.read(rs2 as usize);

    let full_opcode = build_full_opcode(opcode, funct_3, funct_7);

    let decoded = RType {
        opcode,
        full_opcode,
        register_destination_index: register_destination_index(instruction),
        register_source_one: DecodedRegisterValue { index: rs1, value: rs1_value },
        register_source_two: DecodedRegisterValue { index: rs2, value: rs2_value },
    };

    proof {
        lemma_r_type_full_opcode_fields(instruction);
    }
    if full_opcode == full_opcode_constants::SLLI {
        Ok(Instruction::Alu(AluInstruction::SLLI(decoded)))
    } else if full_opcode == full_opcode_constants::SRLI {
        Ok(Instruction::Alu(AluInstruction::SRLI(decoded)))
    } else if full_opcode == full_opcode_constants::SRAI {
        Ok(Instruction::Alu(AluInstruction::SRAI(decoded)))
    } else if full_opcode == full_opcode_constants::ADD {
        Ok(Instruction::Alu(AluInstruction::ADD(decoded)))
    } else if full_opcode == full_opcode_constants::SUB {
        Ok(Instruction::Alu(AluInstruction::SUB(decoded)))
    } else if full_opcode == full_opcode_constants::SLL {
        Ok(Instruction::Alu(AluInstruction::SLL(decoded)))
    } else if full_opcode == full_opcode_constants::SLT {
        Ok(Instruction::Alu(AluInstruction::SLT(decoded)))
    } else if full_opcode == full_opcode_constants::SLTU {
        Ok(Instruction::Alu(AluInstruction::SLTU(decoded)))
    } else if full_opcode == full_opcode_constants::XOR {
        Ok(Instruction::Alu(AluInstruction::XOR(decoded)))
    } else if full_opcode == full_opcode_constants::SRL {
        Ok(Instruction::Alu(AluInstruction::SRL(decoded)))
    } else if full_opcode == full_opcode_constants::SRA {
        Ok(Instruction::Alu(AluInstruction::SRA(decoded)))
    } else if full_opcode == full_opcode_constants::OR {
        Ok(Instruction::Alu(AluInstruction::OR(decoded)))
    } else if full_opcode == full_opcode_constants::AND {
        Ok(Instruction::Alu(AluInstruction::AND(decoded)))
    } else {
        bad_instruction(fetch_result)
    }
}

/// How the R-format dispatch keys decompose: a full opcode equals one of
/// the R-format constants exactly when the word's opcode, funct3 and
/// funct7 fields carry that instruction's values.
proof fn lemma_r_type_full_opcode_fields(w: u32)
    ensures
        ({
            let op = opcode_spec(w);
            let f3 = funct_3_spec(w);
            let f7 = funct_7_spec(w);
            let full = build_full_opcode_spec(op, f3, f7);
            &&& (full == full_opcode_constants::SLLI <==> op == 0b0010011 && f7 == 0b0000000 && f3
                == 0b001)
            &&& (full == full_opcode_constants::SRLI <==> op == 0b0010011 && f7 == 0b0000000 && f3
                == 0b101)
            &&& (full == full_opcode_constants::SRAI <==> op == 0b0010011 && f7 == 0b0100000 && f3
                == 0b101)
            &&& (full == full_opcode_constants::ADD <==> op == 0b0110011 && f7 == 0b0000000 && f3
                == 0b000)
            &&& (full == full_opcode_constants::SUB <==> op == 0b0110011 && f7 == 0b0100000 && f3
                == 0b000)
            &&& (full == full_opcode_constants::SLL <==> op == 0b0110011 && f7 == 0b0000000 && f3
                == 0b001)
            &&& (full == full_opcode_constants::SLT <==> op == 0b0110011 && f7 == 0b0000000 && f3
                == 0b010)
            &&& (full == full_opcode_constants::SLTU <==> op == 0b0110011 && f7 == 0b0000000 && f3
                == 0b011)
            &&& (full == full_opcode_constants::XOR <==> op == 0b0110011 && f7 == 0b0000000 && f3
                == 0b100)
            &&& (full == full_opcode_constants::SRL <==> op == 0b0110011 && f7 == 0b0000000 && f3
                == 0b101)
            &&& (full == full_opcode_constants::SRA <==> op == 0b0110011 && f7 == 0b0100000 && f3
                == 0b101)
            &&& (full == full_opcode_constants::OR <==> op == 0b0110011 && f7 == 0b0000000 && f3
                == 0b110)
            &&& (full == full_opcode_constants::AND <==> op == 0b0110011 && f7 == 0b0000000 && f3
                == 0b111)
        }),
{
    assert({
        let op = w & 0x7f;
        let f3 = (w >> 12) & 0x7;
        let f7 = (w >> 25) & 0x7f;
        let full = (f7 << 10) | (f3 << 7) | op;
        &&& (full == full_opcode_constants::SLLI <==> op == 0b0010011 && f7 == 0b0000000 && f3
            == 0b001)
        &&& (full == full_opcode_constants::SRLI <==> op == 0b0010011 && f7 == 0b0000000 && f3
            == 0b101)
        &&& (full == full_opcode_constants::SRAI <==> op == 0b0010011 && f7 == 0b0100000 && f3
            == 0b101)
        &&& (full == full_opcode_constants::ADD <==> op == 0b0110011 && f7 == 0b0000000 && f3
            == 0b000)
        &&& (full == full_opcode_constants::SUB <==> op == 0b0110011 && f7 == 0b0100000 && f3
            == 0b000)
        &&& (full == full_opcode_constants::SLL <==> op == 0b0110011 && f7 == 0b0000000 && f3
            == 0b001)
        &&& (full == full_opcode_constants::SLT <==> op == 0b0110011 && f7 == 0b0000000 && f3
            == 0b010)
        &&& (full == full_opcode_constants::SLTU <==> op == 0b0110011 && f7 == 0b0000000 && f3
            == 0b011)
        &&& (full == full_opcode_constants::XOR <==> op == 0b0110011 && f7 == 0b0000000 && f3
            == 0b100)
        &&& (full == full_opcode_constants::SRL <==> op == 0b0110011 && f7 == 0b0000000 && f3
            == 0b101)
        &&& (full == full_opcode_constants::SRA <==> op == 0b0110011 && f7 == 0b0100000 && f3
            == 0b101)
        &&& (full == full_opcode_constants::OR <==> op == 0b0110011 && f7 == 0b0000000 && f3
            == 0b110)
        &&& (full == full_opcode_constants::AND <==> op == 0b0110011 && f7 == 0b0000000 && f3
            == 0b111)
    }) by (bit_vector);
}

fn i_type(fetch_result: FetchResult, register_file: &RegisterFile) -> (result: Result<
    Instruction,
    DecodeError,
>)
    requires
        register_file@.len() == 32,
    ensures
        result == i_type_spec(fetch_result, register_file@),
{
    let instruction = fetch_result.instruction;
    let opcode = opcode(instruction);
    let funct_3 = funct_3(instruction);

    let immediate = sign_extend(instruction >> 20, 12, 32);

    let rs1 = register_source_one_index(instruction);
    proof {
        lemma_register_index_bounds(instruction);
    }
    let rs1_value = register_file.read(rs1 as usize);
    let full_opcode = build_full_opcode(opcode, funct_3, 0);

    let decoded = IType {
        opcode,
        full_opcode,
        register_destination_index: register_destination_index(instruction),
        register_source_one: DecodedRegisterValue { index: rs1, value: rs1_value },
        immediate,
    };

    proof {
        lemma_i_type_full_opcode_fields(instruction);
    }
    if full_opcode == full_opcode_constants::JALR {
        Ok(Instruction::Branching(BranchingInstruction::JALR(decoded)))
    } else if full_opcode == full_opcode_constants::LB {
        Ok(Instruction::MemoryLoad(MemoryLoadInstruction::LB(decoded)))
    } else if full_opcode == full_opcode_constants::LBU {
        Ok(Instruction::MemoryLoad(MemoryLoadInstruction::LBU(decoded)))
    } else if full_opcode == full_opcode_constants::LH {
        Ok(Instruction::MemoryLoad(MemoryLoadInstruction::LH(decoded)))
    } else if full_opcode == full_opcode_constants::LHU {
        Ok(Instruction::MemoryLoad(MemoryLoadInstruction::LHU(decoded)))
    } else if full_opcode == full_opcode_constants::LW {
        Ok(Instruction::MemoryLoad(MemoryLoadInstruction::LW(decoded)))
    } else if full_opcode == full_opcode_constants::ADDI {
        Ok(Instruction::Alu(AluInstruction::ADDI(decoded)))
    } else if full_opcode == full_opcode_constants::SLTI {
        Ok(Instruction::Alu(AluInstruction::SLTI(decoded)))
    } else if full_opcode == full_opcode_constants::SLTIU {
        Ok(Instruction::Alu(AluInstruction::SLTIU(decoded)))
    } else if full_opcode == full_opcode_constants::XORI {
        Ok(Instruction::Alu(AluInstruction::XORI(decoded)))
    } else if full_opcode == full_opcode_constants::ORI {
        Ok(Instruction::Alu(AluInstruction::ORI(decoded)))
    } else if full_opcode == full_opcode_constants::ANDI {
        Ok(Instruction::Alu(AluInstruction::ANDI(decoded)))
    } else {
        bad_instruction(fetch_result)
    }
}

/// How the I-format dispatch keys decompose: with a zero funct7 combined
/// in, a full opcode equals one of the I-format constants exactly when the
/// opcode and funct3 fields carry that instruction's values.
proof fn lemma_i_type_full_opcode_fields(w: u32)
    ensures
        ({
            let op = opcode_spec(w);
            let f3 = funct_3_spec(w);
            let full = build_full_opcode_spec(op, f3, 0);
            &&& (full == full_opcode_constants::JALR <==> op == 0b1100111 && f3 == 0b000)
            &&& (full == full_opcode_constants::LB <==> op == 0b0000011 && f3 == 0b000)
            &&& (full == full_opcode_constants::LBU <==> op == 0b0000011 && f3 == 0b100)
            &&& (full == full_opcode_constants::LH <==> op == 0b0000011 && f3 == 0b001)
            &&& (full == full_opcode_constants::LHU <==> op == 0b0000011 && f3 == 0b101)
            &&& (full == full_opcode_constants::LW <==> op == 0b0000011 && f3 == 0b010)
            &&& (full == full_opcode_constants::ADDI <==> op == 0b0010011 && f3 == 0b000)
            &&& (full == full_opcode_constants::SLTI <==> op == 0b0010011 && f3 == 0b010)
            &&& (full == full_opcode_constants::SLTIU <==> op == 0b0010011 && f3 == 0b011)
            &&& (full == full_opcode_constants::XORI <==> op == 0b0010011 && f3 == 0b100)
            &&& (full == full_opcode_constants::ORI <==> op == 0b0010011 && f3 == 0b110)
            &&& (full == full_opcode_constants::ANDI <==> op == 0b0010011 && f3 == 0b111)
        }),
{
    assert({
        let op = w & 0x7f;
        let f3 = (w >> 12) & 0x7;
        let full = (0u32 << 10) | (f3 << 7) | op;
        &&& (full == full_opcode_constants::JALR <==> op == 0b1100111 && f3 == 0b000)
        &&& (full == full_opcode_constants::LB <==> op == 0b0000011 && f3 == 0b000)
        &&& (full == full_opcode_constants::LBU <==> op == 0b0000011 && f3 == 0b100)
        &&& (full == full_opcode_constants::LH <==> op == 0b0000011 && f3 == 0b001)
        &&& (full == full_opcode_constants::LHU <==> op == 0b0000011 && f3 == 0b101)
        &&& (full == full_opcode_constants::LW <==> op == 0b0000011 && f3 == 0b010)
        &&& (full == full_opcode_constants::ADDI <==> op == 0b0010011 && f3 == 0b000)
        &&& (full == full_opcode_constants::SLTI <==> op == 0b0010011 && f3 == 0b010)
        &&& (full == full_opcode_constants::SLTIU <==> op == 0b0010011 && f3 == 0b011)
        &&& (full == full_opcode_constants::XORI <==> op == 0b0010011 && f3 == 0b100)
        &&& (full == full_opcode_constants::ORI <==> op == 0b0010011 && f3 == 0b110)
        &&& (full == full_opcode_constants::ANDI <==> op == 0b0010011 && f3 == 0b111)
    }) by (bit_vector);
}

fn s_type(fetch_result: FetchResult, register_file: &RegisterFile) -> (result: Result<
    Instruction,
    DecodeError,
>)
    requires
        register_file@.len() == 32,
    ensures
        result == s_type_spec(fetch_result, register_file@),
{
    let instruction = fetch_result.instruction;
    let opcode = opcode(instruction);
    let funct_3 = funct_3(instruction);

    let immediate_lower = register_destination_index(instruction);
    let immediate_upper = funct_7(instruction);
    let immediate = sign_extend((immediate_upper << 5) | immediate_lower, 12, 32);

    let rs1 = register_source_one_index(instruction);
    let rs2 = register_source_two_index(instruction);

    proof {
        lemma_register_index_bounds(instruction);
    }
    let rs1_value = register_file.read(rs1 as usize);
    let rs2_value = register_file.read(rs2 as usize);
    let full_opcode = build_full_opcode(opcode, funct_3, 0);

    let decoded = SType {
        opcode,
        full_opcode,
        register_source_one: DecodedRegisterValue { index: rs1, value: rs1_value },
        register_source_two: DecodedRegisterValue { index: rs2, value: rs2_value },
        immediate,
    };

    proof {
        lemma_s_type_full_opcode_fields(instruction);
    }
    if full_opcode == full_opcode_constants::SB {
        Ok(Instruction::MemoryStore(MemoryStoreInstruction::SB(decoded)))
    } else if full_opcode == full_opcode_constants::SH {
        Ok(Instruction::MemoryStore(MemoryStoreInstruction::SH(decoded)))
    } else if full_opcode == full_opcode_constants::SW {
        Ok(Instruction::MemoryStore(MemoryStoreInstruction::SW(decoded)))
    } else {
        bad_instruction(fetch_result)
    }
}

/// How the S-format dispatch keys decompose.
proof fn lemma_s_type_full_opcode_fields(w: u32)
    ensures
        ({
            let op = opcode_spec(w);
            let f3 = funct_3_spec(w);
            let full = build_full_opcode_spec(op, f3, 0);
            &&& (full == full_opcode_constants::SB <==> op == 0b0100011 && f3 == 0b000)
            &&& (full == full_opcode_constants::SH <==> op == 0b0100011 && f3 == 0b001)
            &&& (full == full_opcode_constants::SW <==> op == 0b0100011 && f3 == 0b010)
        }),
{
    assert({
        let op = w & 0x7f;
        let f3 = (w >> 12) & 0x7;
        let full = (0u32 << 10) | (f3 << 7) | op;
        &&& (full == full_opcode_constants::SB <==> op == 0b0100011 && f3 == 0b000)
        &&& (full == full_opcode_constants::SH <==> op == 0b0100011 && f3 == 0b001)
        &&& (full == full_opcode_constants::SW <==> op == 0b0100011 && f3 == 0b010)
    }) by (bit_vector);
}

fn u_type(fetch_result: FetchResult) -> (result: Result<Instruction, DecodeError>)
    ensures
        result == u_type_spec(fetch_result),
{
    let instruction = fetch_result.instruction;
    let opcode = opcode(instruction);

    let decoded = UType {
        opcode,
        full_opcode: opcode,
        register_destination_index: register_destination_index(instruction),
        immediate: instruction & 0xffff_f000,
    };

    if opcode == full_opcode_constants::LUI {
        Ok(Instruction::Alu(AluInstruction::LUI(decoded)))
    } else if opcode == full_opcode_constants::AUIPC {
        Ok(Instruction::Alu(AluInstruction::AUIPC(decoded)))
    } else {
        bad_instruction(fetch_result)
    }
}

fn b_type(fetch_result: FetchResult, register_file: &RegisterFile) -> (result: Result<
    Instruction,
    DecodeError,
>)
    requires
        register_file@.len() == 32,
    ensures
        result == b_type_spec(fetch_result, register_file@),
{
    let instruction = fetch_result.instruction;
    let opcode = opcode(instruction);
    let funct_3 = funct_3(instruction);
    let funct_7 = funct_7(instruction);

    let register_destination_index = register_destination_index(instruction);

    let immediate = sign_extend(
        ((funct_7 >> 6) << 12) | ((register_destination_index & 0x1) << 11) | ((funct_7 & 0x3f)
            << 5) | (register_destination_index & 0x1e),
        13,
        32,
    );

    let rs1 = register_source_one_index(instruction);
    let rs2 = register_source_two_index(instruction);

    proof {
        lemma_register_index_bounds(instruction);
    }
    let rs1_value = register_file.read(rs1 as usize);
    let rs2_value = register_file.read(rs2 as usize);
    let full_opcode = build_full_opcode(opcode, funct_3, 0);

    let decoded = BType {
        opcode,
        full_opcode,
        register_source_one: DecodedRegisterValue { index: rs1, value: rs1_value },
        register_source_two: DecodedRegisterValue { index: rs2, value: rs2_value },
        immediate,
    };

    proof {
        lemma_b_type_full_opcode_fields(instruction);
    }
    if full_opcode == full_opcode_constants::BEQ {
        Ok(Instruction::Branching(BranchingInstruction::BEQ(decoded)))
    } else if full_opcode == full_opcode_constants::BNE {
        Ok(Instruction::Branching(BranchingInstruction::BNE(decoded)))
    } else if full_opcode == full_opcode_constants::BLT {
        Ok(Instruction::Branching(BranchingInstruction::BLT(decoded)))
    } else if full_opcode == full_opcode_constants::BGE {
        Ok(Instruction::Branching(BranchingInstruction::BGE(decoded)))
    } else if full_opcode == full_opcode_constants::BLTU {
        Ok(Instruction::Branching(BranchingInstruction::BLTU(decoded)))
    } else if full_opcode == full_opcode_constants::BGEU {
        Ok(Instruction::Branching(BranchingInstruction::BGEU(decoded)))
    } else {
        bad_instruction(fetch_result)
    }
}

/// How the B-format dispatch keys decompose.
proof fn lemma_b_type_full_opcode_fields(w: u32)
    ensures
        ({
            let op = opcode_spec(w);
            let f3 = funct_3_spec(w);
            let full = build_full_opcode_spec(op, f3, 0);
            &&& (full == full_opcode_constants::BEQ <==> op == 0b1100011 && f3 == 0b000)
            &&& (full == full_opcode_constants::BNE <==> op == 0b1100011 && f3 == 0b001)
            &&& (full == full_opcode_constants::BLT <==> op == 0b1100011 && f3 == 0b100)
            &&& (full == full_opcode_constants::BGE <==> op == 0b1100011 && f3 == 0b101)
            &&& (full == full_opcode_constants::BLTU <==> op == 0b1100011 && f3 == 0b110)
            &&& (full == full_opcode_constants::BGEU <==> op == 0b1100011 && f3 == 0b111)
        }),
{
    assert({
        let op = w & 0x7f;
        let f3 = (w >> 12) & 0x7;
        let full = (0u32 << 10) | (f3 << 7) | op;
        &&& (full == full_opcode_constants::BEQ <==> op == 0b1100011 && f3 == 0b000)
        &&& (full == full_opcode_constants::BNE <==> op == 0b1100011 && f3 == 0b001)
        &&& (full == full_opcode_constants::BLT <==> op == 0b1100011 && f3 == 0b100)
        &&& (full == full_opcode_constants::BGE <==> op == 0b1100011 && f3 == 0b101)
        &&& (full == full_opcode_constants::BLTU <==> op == 0b1100011 && f3 == 0b110)
        &&& (full == full_opcode_constants::BGEU <==> op == 0b1100011 && f3 == 0b111)
    }) by (bit_vector);
}

fn j_type(fetch_result: FetchResult) -> (result: Result<Instruction, DecodeError>)
    ensures
        result == j_type_spec(fetch_result),
{
    let instruction = fetch_result.instruction;
    let opcode = opcode(instruction);
    let imm_1_to_10 = (instruction & 0x7fe00000) >> 21;
    let imm_11 = (instruction & 0x100000) >> 20;
    let imm_12_to_19 = (instruction & 0xff000) >> 12;
    let imm_20 = (instruction & 0x80000000) >> 31;

    let immediate = sign_extend(
        (imm_20 << 20) | (imm_12_to_19 << 12) | (imm_11 << 11) | (imm_1_to_10 << 1),
        20,
        32,
    );

    let decoded = JType {
        opcode,
        full_opcode: opcode,
        register_destination_index: register_destination_index(instruction),
        immediate,
    };

    if opcode == full_opcode_constants::JAL {
        Ok(Instruction::Branching(BranchingInstruction::JAL(decoded)))
    } else {
        bad_instruction(fetch_result)
    }
}

fn opcode(instruction: u32) -> (r: u32)
    ensures
        r == opcode_spec(instruction),
{
    instruction & 0x7f
}

fn funct_3(instruction: u32) -> (r: u32)
    ensures
        r == funct_3_spec(instruction),
{
    (instruction >> 12) & 0x7
}

fn funct_7(instruction: u32) -> (r: u32)
    ensures
        r == funct_7_spec(instruction),
{
    (instruction >> 25) & 0x7f
}

fn register_destination_index(instruction: u32) -> (r: u32)
    ensures
        r == register_destination_index_spec(instruction),
{
    (instruction >> 7) & 0x1f
}

fn register_source_one_index(instruction: u32) -> (r: u32)
    ensures
        r == register_source_one_index_spec(instruction),
{
    (instruction >> 15) & 0x1f
}

fn register_source_two_index(instruction: u32) -> (r: u32)
    ensures
        r == register_source_two_index_spec(instruction),
{
    (instruction >> 20) & 0x1f
}

fn build_full_opcode(opcode: u32, funct_3: u32, funct_7: u32) -> (r: u32)
    ensures
        r == build_full_opcode_spec(opcode, funct_3, funct_7),
{
    (funct_7 << 10u32) | (funct_3 << 7u32) | opcode
}

fn sign_extend(value: u32, bits: usize, width: usize) -> (r: u32)
    requires
        width == 32,
        1 <= bits <= 32,
    ensures
        r == sign_extend_spec(value, bits as u32),
{
    let cast = value as i32;
    let shift_by: u32 = (width - bits) as u32;
    ((cast << shift_by) >> shift_by) as u32
}

fn bad_instruction(fetch_result: FetchResult) -> (result: Result<Instruction, DecodeError>)
    ensures
        result == bad_instruction_spec(fetch_result),
{
    Err(
        DecodeError::BadInstruction {
            address: fetch_result.captured_pc,
            instruction: fetch_result.instruction,
        },
    )
}

/// Whether `word`'s opcode group and dispatch fields select a defined
/// RV32I instruction: exactly these words decode successfully.
pub open spec fn encoding_defined(word: u32) -> bool {
    let op = opcode_spec(word);
    let f3 = funct_3_spec(word);
    let f7 = funct_7_spec(word);
    ||| op == opcode_group_constants::LUI
    ||| op == opcode_group_constants::AUIPC
    ||| op == opcode_group_constants::JAL
    ||| (op == opcode_group_constants::JALR && f3 == 0b000)
    ||| (op == opcode_group_constants::BRANCHING && (f3 == 0b000 || f3 == 0b001 || f3 == 0b100
        || f3 == 0b101 || f3 == 0b110 || f3 == 0b111))
    ||| (op == opcode_group_constants::LOAD && (f3 == 0b000 || f3 == 0b001 || f3 == 0b010 || f3
        == 0b100 || f3 == 0b101))
    ||| (op == opcode_group_constants::STORE && (f3 == 0b000 || f3 == 0b001 || f3 == 0b010))
    ||| (op == opcode_group_constants::ALU && (f7 == 0b0000000 || (f7 == 0b0100000 && (f3
        == 0b000 || f3 == 0b101))))
    ||| (op == opcode_group_constants::ALU_IMMEDIATE && ((f3 != 0b001 && f3 != 0b101) || (f3
        == 0b001 && f7 == 0b0000000) || (f3 == 0b101 && (f7 == 0b0000000 || f7 == 0b0100000))))
}

/// The full opcode the decoder stores for `word`: U and J formats keep the
/// opcode group alone, the R-format groups combine the real funct7, every
/// other format combines a zero funct7.
pub open spec fn full_opcode_of_word(word: u32) -> u32 {
    let op = opcode_spec(word);
    let f3 = funct_3_spec(word);
    let f7 = funct_7_spec(word);
    if op == opcode_group_constants::LUI || op == opcode_group_constants::AUIPC || op
        == opcode_group_constants::JAL {
        op
    } else if op == opcode_group_constants::ALU || (op == opcode_group_constants::ALU_IMMEDIATE
        && (f3 == 0b001 || f3 == 0b101)) {
        build_full_opcode_spec(op, f3, f7)
    } else {
        build_full_opcode_spec(op, f3, 0)
    }
}

/// The `opcode` and `full_opcode` fields an ALU instruction carries.
pub open spec fn alu_instruction_opcodes(instruction: AluInstruction) -> (u32, u32) {
    match instruction {
        AluInstruction::LUI(i) => (i.opcode, i.full_opcode),
        AluInstruction::AUIPC(i) => (i.opcode, i.full_opcode),
        AluInstruction::ADDI(i) => (i.opcode, i.full_opcode),
        AluInstruction::SLTI(i) => (i.opcode, i.full_opcode),
        AluInstruction::SLTIU(i) => (i.opcode, i.full_opcode),
        AluInstruction::XORI(i) => (i.opcode, i.full_opcode),
        AluInstruction::ORI(i) => (i.opcode, i.full_opcode),
        AluInstruction::ANDI(i) => (i.opcode, i.full_opcode),
        AluInstruction::SLLI(i) => (i.opcode, i.full_opcode),
        AluInstruction::SRLI(i) => (i.opcode, i.full_opcode),
        AluInstruction::SRAI(i) => (i.opcode, i.full_opcode),
        AluInstruction::ADD(i) => (i.opcode, i.full_opcode),
        AluInstruction::SUB(i) => (i.opcode, i.full_opcode),
        AluInstruction::SLL(i) => (i.opcode, i.full_opcode),
        AluInstruction::SLT(i) => (i.opcode, i.full_opcode),
        AluInstruction::SLTU(i) => (i.opcode, i.full_opcode),
        AluInstruction::XOR(i) => (i.opcode, i.full_opcode),
        AluInstruction::SRL(i) => (i.opcode, i.full_opcode),
        AluInstruction::SRA(i) => (i.opcode, i.full_opcode),
        AluInstruction::OR(i) => (i.opcode, i.full_opcode),
        AluInstruction::AND(i) => (i.opcode, i.full_opcode),
    }
}

/// The `opcode` and `full_opcode` fields a control-transfer instruction
/// carries.
pub open spec fn branching_instruction_opcodes(instruction: BranchingInstruction) -> (u32, u32) {
    match instruction {
        BranchingInstruction::JAL(i) => (i.opcode, i.full_opcode),
        BranchingInstruction::JALR(i) => (i.opcode, i.full_opcode),
        BranchingInstruction::BEQ(i) => (i.opcode, i.full_opcode),
        BranchingInstruction::BNE(i) => (i.opcode, i.full_opcode),
        BranchingInstruction::BLT(i) => (i.opcode, i.full_opcode),
        BranchingInstruction::BGE(i) => (i.opcode, i.full_opcode),
        BranchingInstruction::BLTU(i) => (i.opcode, i.full_opcode),
        BranchingInstruction::BGEU(i) => (i.opcode, i.full_opcode),
    }
}

/// The `opcode` and `full_opcode` fields a load instruction carries.
pub open spec fn load_instruction_opcodes(instruction: MemoryLoadInstruction) -> (u32, u32) {
    match instruction {
        MemoryLoadInstruction::LB(i) => (i.opcode, i.full_opcode),
        MemoryLoadInstruction::LH(i) => (i.opcode, i.full_opcode),
        MemoryLoadInstruction::LW(i) => (i.opcode, i.full_opcode),
        MemoryLoadInstruction::LBU(i) => (i.opcode, i.full_opcode),
        MemoryLoadInstruction::LHU(i) => (i.opcode, i.full_opcode),
    }
}

/// The `opcode` and `full_opcode` fields a store instruction carries.
pub open spec fn store_instruction_opcodes(instruction: MemoryStoreInstruction) -> (u32, u32) {
    match instruction {
        MemoryStoreInstruction::SB(i) => (i.opcode, i.full_opcode),
        MemoryStoreInstruction::SH(i) => (i.opcode, i.full_opcode),
        MemoryStoreInstruction::SW(i) => (i.opcode, i.full_opcode),
    }
}

/// The `opcode` and `full_opcode` fields any decoded instruction carries.
pub open spec fn instruction_opcodes(instruction: Instruction) -> (u32, u32) {
    match instruction {
        Instruction::Alu(i) => alu_instruction_opcodes(i),
        Instruction::Branching(i) => branching_instruction_opcodes(i),
        Instruction::MemoryLoad(i) => load_instruction_opcodes(i),
        Instruction::MemoryStore(i) => store_instruction_opcodes(i),
    }
}

/// Law: decode is total. A word decodes successfully exactly when its
/// opcode group and dispatch key select a defined RV32I instruction; the
/// decoded variant then carries the word's own opcode and full opcode;
/// every other word fails with `BadInstruction` carrying the captured
/// address and the raw word unchanged.
pub proof fn lemma_decode_totality(fetch_result: FetchResult, registers: Seq<u32>)
    ensures
        decode_spec(fetch_result, registers) is Ok <==> encoding_defined(fetch_result.instruction),
        (decode_spec(fetch_result, registers) matches Ok(instruction) ==> instruction_opcodes(
            instruction,
        ) == (opcode_spec(fetch_result.instruction), full_opcode_of_word(
            fetch_result.instruction,
        ))),
        !encoding_defined(fetch_result.instruction) ==> decode_spec(fetch_result, registers)
            == bad_instruction_spec(fetch_result),
{
    lemma_dispatch_field_bounds(fetch_result.instruction);
}

/// The dispatch fields of a word fit their widths.
pub proof fn lemma_dispatch_field_bounds(w: u32)
    ensures
        opcode_spec(w) < 128,
        funct_3_spec(w) < 8,
        funct_7_spec(w) < 128,
{
    assert(w & 0x7f < 128 && (w >> 12) & 0x7 < 8 && (w >> 25) & 0x7f < 128) by (bit_vector);
}

/// The immediate a decoded instruction carries: `None` for the R-format
/// instructions, which have none (the shift-with-immediates carry their
/// amount as an operand snapshot instead).
pub open spec fn instruction_immediate(instruction: Instruction) -> Option<u32> {
    match instruction {
        Instruction::Alu(instr) => alu_instruction_immediate(instr),
        Instruction::Branching(instr) => branching_instruction_immediate(instr),
        Instruction::MemoryLoad(instr) => load_instruction_immediate(instr),
        Instruction::MemoryStore(instr) => store_instruction_immediate(instr),
    }
}

/// The immediate an ALU instruction carries, if its format has one.
pub open spec fn alu_instruction_immediate(instruction: AluInstruction) -> Option<u32> {
    match instruction {
        AluInstruction::LUI(i) => Some(i.immediate),
        AluInstruction::AUIPC(i) => Some(i.immediate),
        AluInstruction::ADDI(i) => Some(i.immediate),
        AluInstruction::SLTI(i) => Some(i.immediate),
        AluInstruction::SLTIU(i) => Some(i.immediate),
        AluInstruction::XORI(i) => Some(i.immediate),
        AluInstruction::ORI(i) => Some(i.immediate),
        AluInstruction::ANDI(i) => Some(i.immediate),
        AluInstruction::SLLI(_) => None,
        AluInstruction::SRLI(_) => None,
        AluInstruction::SRAI(_) => None,
        AluInstruction::ADD(_) => None,
        AluInstruction::SUB(_) => None,
        AluInstruction::SLL(_) => None,
        AluInstruction::SLT(_) => None,
        AluInstruction::SLTU(_) => None,
        AluInstruction::XOR(_) => None,
        AluInstruction::SRL(_) => None,
        AluInstruction::SRA(_) => None,
        AluInstruction::OR(_) => None,
        AluInstruction::AND(_) => None,
    }
}

/// The immediate a control-transfer instruction carries.
pub open spec fn branching_instruction_immediate(instruction: BranchingInstruction) -> Option<
    u32,
> {
    match instruction {
        BranchingInstruction::JAL(i) => Some(i.immediate),
        BranchingInstruction::JALR(i) => Some(i.immediate),
        BranchingInstruction::BEQ(i) => Some(i.immediate),
        BranchingInstruction::BNE(i) => Some(i.immediate),
        BranchingInstruction::BLT(i) => Some(i.immediate),
        BranchingInstruction::BGE(i) => Some(i.immediate),
        BranchingInstruction::BLTU(i) => Some(i.immediate),
        BranchingInstruction::BGEU(i) => Some(i.immediate),
    }
}

/// The immediate a load instruction carries.
pub open spec fn load_instruction_immediate(instruction: MemoryLoadInstruction) -> Option<u32> {
    match instruction {
        MemoryLoadInstruction::LB(i) => Some(i.immediate),
        MemoryLoadInstruction::LH(i) => Some(i.immediate),
        MemoryLoadInstruction::LW(i) => Some(i.immediate),
        MemoryLoadInstruction::LBU(i) => Some(i.immediate),
        MemoryLoadInstruction::LHU(i) => Some(i.immediate),
    }
}

/// The immediate a store instruction carries.
pub open spec fn store_instruction_immediate(instruction: MemoryStoreInstruction) -> Option<u32> {
    match instruction {
        MemoryStoreInstruction::SB(i) => Some(i.immediate),
        MemoryStoreInstruction::SH(i) => Some(i.immediate),
        MemoryStoreInstruction::SW(i) => Some(i.immediate),
    }
}

/// The immediate reassembly the decoder applies to `word`, selected by its
/// opcode group: `None` where the selected format carries no immediate.
pub open spec fn word_immediate(word: u32) -> Option<u32> {
    let op = opcode_spec(word);
    let f3 = funct_3_spec(word);
    if op == opcode_group_constants::LUI || op == opcode_group_constants::AUIPC {
        Some(immediate_u_spec(word))
    } else if op == opcode_group_constants::STORE {
        Some(immediate_s_spec(word))
    } else if op == opcode_group_constants::BRANCHING {
        Some(immediate_b_spec(word))
    } else if op == opcode_group_constants::JALR || op == opcode_group_constants::LOAD {
        Some(immediate_i_spec(word))
    } else if op == opcode_group_constants::JAL {
        Some(immediate_j_spec(word))
    } else if op == opcode_group_constants::ALU_IMMEDIATE && f3 != 0b001 && f3 != 0b101 {
        Some(immediate_i_spec(word))
    } else {
        None
    }
}

/// Law: every decoded instruction carries exactly its format's immediate
/// reassembly of the fetched word. Together with the per-format round
/// trips below, this pins the decoded immediate of a word built around an
/// encodable immediate to that immediate, for every format.
pub proof fn lemma_decode_immediates(fetch_result: FetchResult, registers: Seq<u32>)
    ensures
        (decode_spec(fetch_result, registers) matches Ok(instruction) ==> instruction_immediate(
            instruction,
        ) == word_immediate(fetch_result.instruction)),
{
}

/// The I-format word that carries `immediate` in bits 31:20, every other
/// field zero.
pub open spec fn encode_immediate_i(immediate: u32) -> u32 {
    immediate << 20u32
}

/// The S-format word that carries `immediate` split over the funct7 and
/// destination-register fields (bits 11:5 and 4:0 of the immediate),
/// every other field zero.
pub open spec fn encode_immediate_s(immediate: u32) -> u32 {
    (((immediate >> 5) & 0x7f) << 25u32) | ((immediate & 0x1f) << 7u32)
}

/// The U-format word that carries `immediate`'s top 20 bits, every other
/// field zero.
pub open spec fn encode_immediate_u(immediate: u32) -> u32 {
    immediate & 0xffff_f000
}

/// The B-format word that carries the even byte offset `immediate`
/// scattered over the funct7 and destination-register fields (bit 12 and
/// bits 10:5 in funct7, bits 4:1 and 11 in the destination-register
/// field), every other field zero.
pub open spec fn encode_immediate_b(immediate: u32) -> u32 {
    (((immediate >> 12) & 0x1) << 31u32) | (((immediate >> 5) & 0x3f) << 25u32) | (((immediate
        >> 1) & 0xf) << 8u32) | (((immediate >> 11) & 0x1) << 7u32)
}

/// The J-format word that carries `immediate` scattered over bits 30:12,
/// every other field zero.
pub open spec fn encode_immediate_j(immediate: u32) -> u32 {
    (((immediate >> 1) & 0x3ff) << 21u32) | (((immediate >> 11) & 0x1) << 20u32) | (((immediate
        >> 12) & 0xff) << 12u32)
}

/// Law (I format): every 12-bit signed immediate encoded into a word and
/// decoded back reproduces the original value.
pub proof fn lemma_immediate_i_round_trip(immediate: u32)
    requires
        immediate < 0x800 || immediate >= 0xffff_f800,
    ensures
        immediate_i_spec(encode_immediate_i(immediate)) == immediate,
{
    assert(immediate_i_spec(encode_immediate_i(immediate)) == immediate) by (bit_vector)
        requires
            immediate < 0x800 || immediate >= 0xffff_f800,
    ;
}

/// Law (S format): every 12-bit signed immediate encoded into a word and
/// decoded back reproduces the original value.
pub proof fn lemma_immediate_s_round_trip(immediate: u32)
    requires
        immediate < 0x800 || immediate >= 0xffff_f800,
    ensures
        immediate_s_spec(encode_immediate_s(immediate)) == immediate,
{
    assert(immediate_s_spec(encode_immediate_s(immediate)) == immediate) by (bit_vector)
        requires
            immediate < 0x800 || immediate >= 0xffff_f800,
    ;
}

/// Law (U format): every immediate with a zero low 12 bits encoded into a
/// word and decoded back reproduces the original value.
pub proof fn lemma_immediate_u_round_trip(immediate: u32)
    requires
        immediate & 0xfff == 0,
    ensures
        immediate_u_spec(encode_immediate_u(immediate)) == immediate,
{
    assert((immediate & 0xffff_f000) & 0xffff_f000 == immediate) by (bit_vector)
        requires
            immediate & 0xfff == 0,
    ;
}

/// Law (B format): every even 13-bit signed byte offset encoded into a
/// word and decoded back reproduces the original value.
pub proof fn lemma_immediate_b_round_trip(immediate: u32)
    requires
        immediate & 0x1 == 0,
        immediate < 0x1000 || immediate >= 0xffff_f000,
    ensures
        immediate_b_spec(encode_immediate_b(immediate)) == immediate,
{
    assert(immediate_b_spec(encode_immediate_b(immediate)) == immediate) by (bit_vector)
        requires
            immediate & 0x1 == 0 && (immediate < 0x1000 || immediate >= 0xffff_f000),
    ;
}

/// Law (J format): every even 20-bit signed immediate encoded into a word
/// and decoded back reproduces the original value.
pub proof fn lemma_immediate_j_round_trip(immediate: u32)
    requires
        immediate & 0x1 == 0,
        immediate < 0x80000 || immediate >= 0xfff8_0000,
    ensures
        immediate_j_spec(encode_immediate_j(immediate)) == immediate,
{
    assert(immediate_j_spec(encode_immediate_j(immediate)) == immediate) by (bit_vector)
        requires
            immediate & 0x1 == 0 && (immediate < 0x80000 || immediate >= 0xfff8_0000),
    ;
}

/// Every register field of a word selects one of the 32 registers.
pub proof fn lemma_register_index_bounds(w: u32)
    ensures
        register_destination_index_spec(w) < 32,
        register_source_one_index_spec(w) < 32,
        register_source_two_index_spec(w) < 32,
{
    assert((w >> 7) & 0x1f < 32 && (w >> 15) & 0x1f < 32 && (w >> 20) & 0x1f < 32)
        by (bit_vector);
}

} // verus!
