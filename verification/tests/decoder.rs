use rv32i_pipeline::instruction::{
    AluInstruction, BranchingInstruction, Instruction, MemoryLoadInstruction,
    MemoryStoreInstruction,
};
use rv32i_pipeline::register_file::RegisterFile;
use rv32i_pipeline::unit::decoder::{decode_instruction, DecodeError};
use rv32i_pipeline::unit::FetchResult;

fn r_word(opcode: u32, funct3: u32, funct7: u32, rd: u32, rs1: u32, rs2: u32) -> u32 {
    (funct7 << 25) | (rs2 << 20) | (rs1 << 15) | (funct3 << 12) | (rd << 7) | opcode
}

fn i_word(opcode: u32, funct3: u32, rd: u32, rs1: u32, imm: u32) -> u32 {
    (imm << 20) | (rs1 << 15) | (funct3 << 12) | (rd << 7) | opcode
}

fn s_word(funct3: u32, rs1: u32, rs2: u32, imm: u32) -> u32 {
    (((imm >> 5) & 0x7f) << 25) | (rs2 << 20) | (rs1 << 15) | (funct3 << 12) | ((imm & 0x1f) << 7)
        | 0b0100011
}

fn b_word(funct3: u32, rs1: u32, rs2: u32, imm: u32) -> u32 {
    (((imm >> 12) & 1) << 31) | (((imm >> 5) & 0x3f) << 25) | (rs2 << 20) | (rs1 << 15)
        | (funct3 << 12) | (((imm >> 1) & 0xf) << 8) | (((imm >> 11) & 1) << 7) | 0b1100011
}

fn u_word(opcode: u32, rd: u32, imm: u32) -> u32 {
    (imm & 0xffff_f000) | (rd << 7) | opcode
}

fn j_word(rd: u32, imm: u32) -> u32 {
    (((imm >> 1) & 0x3ff) << 21) | (((imm >> 11) & 1) << 20) | (((imm >> 12) & 0xff) << 12)
        | (rd << 7) | 0b1101111
}

fn decode_word(word: u32, register_file: &RegisterFile) -> Result<Instruction, DecodeError> {
    decode_instruction(FetchResult { captured_pc: 0x100, instruction: word }, register_file)
}

#[test]
fn decode_addi_snapshots_operand_and_sign_extends() {
    let mut register_file = RegisterFile::new(32);
    register_file.write(5, 77);
    let word = i_word(0b0010011, 0b000, 2, 5, 0xfff);
    match decode_word(word, &register_file) {
        Ok(Instruction::Alu(AluInstruction::ADDI(instr))) => {
            assert_eq!(instr.opcode, 0b0010011);
            assert_eq!(instr.full_opcode, 0b0010011);
            assert_eq!(instr.register_destination_index, 2);
            assert_eq!(instr.register_source_one.index, 5);
            assert_eq!(instr.register_source_one.value, 77);
            assert_eq!(instr.immediate, 0xffff_ffff);
        }
        _ => panic!("expected ADDI"),
    }
}

#[test]
fn decode_register_zero_operand_is_zero() {
    let mut register_file = RegisterFile::new(32);
    register_file.write(0, 123);
    let word = i_word(0b0010011, 0b000, 1, 0, 5);
    match decode_word(word, &register_file) {
        Ok(Instruction::Alu(AluInstruction::ADDI(instr))) => {
            assert_eq!(instr.register_source_one.value, 0);
        }
        _ => panic!("expected ADDI"),
    }
}

#[test]
fn decode_lui_and_auipc_keep_top_bits() {
    let register_file = RegisterFile::new(32);
    match decode_word(u_word(0b0110111, 3, 0xabcd_ef00), &register_file) {
        Ok(Instruction::Alu(AluInstruction::LUI(instr))) => {
            assert_eq!(instr.register_destination_index, 3);
            assert_eq!(instr.immediate, 0xabcd_e000);
        }
        _ => panic!("expected LUI"),
    }
    match decode_word(u_word(0b0010111, 4, 0xfeed_5000), &register_file) {
        Ok(Instruction::Alu(AluInstruction::AUIPC(instr))) => {
            assert_eq!(instr.immediate, 0xfeed_5000);
        }
        _ => panic!("expected AUIPC"),
    }
}

#[test]
fn decode_jal_immediate_round_trips() {
    let register_file = RegisterFile::new(32);
    let minus_four = 0xffff_fffcu32;
    match decode_word(j_word(1, minus_four), &register_file) {
        Ok(Instruction::Branching(BranchingInstruction::JAL(instr))) => {
            assert_eq!(instr.register_destination_index, 1);
            assert_eq!(instr.immediate, minus_four);
        }
        _ => panic!("expected JAL"),
    }
    match decode_word(j_word(0, 0x800), &register_file) {
        Ok(Instruction::Branching(BranchingInstruction::JAL(instr))) => {
            assert_eq!(instr.immediate, 0x800);
        }
        _ => panic!("expected JAL"),
    }
}

#[test]
fn decode_jalr_requires_zero_funct3() {
    let register_file = RegisterFile::new(32);
    match decode_word(i_word(0b1100111, 0b000, 1, 2, 36), &register_file) {
        Ok(Instruction::Branching(BranchingInstruction::JALR(instr))) => {
            assert_eq!(instr.immediate, 36);
        }
        _ => panic!("expected JALR"),
    }
    assert!(decode_word(i_word(0b1100111, 0b010, 1, 2, 36), &register_file).is_err());
}

#[test]
fn decode_branch_immediate_round_trips() {
    let register_file = RegisterFile::new(32);
    match decode_word(b_word(0b000, 0, 0, 8), &register_file) {
        Ok(Instruction::Branching(BranchingInstruction::BEQ(instr))) => {
            assert_eq!(instr.immediate, 8);
        }
        _ => panic!("expected BEQ"),
    }
    let minus_eight = 0xffff_fff8u32;
    match decode_word(b_word(0b001, 1, 2, minus_eight), &register_file) {
        Ok(Instruction::Branching(BranchingInstruction::BNE(instr))) => {
            assert_eq!(instr.immediate, minus_eight);
        }
        _ => panic!("expected BNE"),
    }
}

#[test]
fn decode_store_immediate_round_trips() {
    let mut register_file = RegisterFile::new(32);
    register_file.write(1, 0x80);
    register_file.write(2, 0xdead_beef);
    match decode_word(s_word(0b010, 1, 2, 0x64), &register_file) {
        Ok(Instruction::MemoryStore(MemoryStoreInstruction::SW(instr))) => {
            assert_eq!(instr.immediate, 0x64);
            assert_eq!(instr.register_source_one.value, 0x80);
            assert_eq!(instr.register_source_two.value, 0xdead_beef);
        }
        _ => panic!("expected SW"),
    }
    let negative = 0xffff_f83fu32;
    match decode_word(s_word(0b000, 0, 0, negative), &register_file) {
        Ok(Instruction::MemoryStore(MemoryStoreInstruction::SB(instr))) => {
            assert_eq!(instr.immediate, negative);
        }
        _ => panic!("expected SB"),
    }
}

#[test]
fn decode_i_immediate_round_trips() {
    let register_file = RegisterFile::new(32);
    for imm in [0u32, 1, 5, 0x7ff, 0xffff_f800, 0xffff_ffff] {
        match decode_word(i_word(0b0010011, 0b000, 1, 0, imm), &register_file) {
            Ok(Instruction::Alu(AluInstruction::ADDI(instr))) => {
                assert_eq!(instr.immediate, imm);
            }
            _ => panic!("expected ADDI"),
        }
    }
}

#[test]
fn decode_loads_select_width_and_sign() {
    let register_file = RegisterFile::new(32);
    assert!(matches!(
        decode_word(i_word(0b0000011, 0b000, 1, 0, 0), &register_file),
        Ok(Instruction::MemoryLoad(MemoryLoadInstruction::LB(_)))
    ));
    assert!(matches!(
        decode_word(i_word(0b0000011, 0b001, 1, 0, 0), &register_file),
        Ok(Instruction::MemoryLoad(MemoryLoadInstruction::LH(_)))
    ));
    assert!(matches!(
        decode_word(i_word(0b0000011, 0b010, 1, 0, 0), &register_file),
        Ok(Instruction::MemoryLoad(MemoryLoadInstruction::LW(_)))
    ));
    assert!(matches!(
        decode_word(i_word(0b0000011, 0b100, 1, 0, 0), &register_file),
        Ok(Instruction::MemoryLoad(MemoryLoadInstruction::LBU(_)))
    ));
    assert!(matches!(
        decode_word(i_word(0b0000011, 0b101, 1, 0, 0), &register_file),
        Ok(Instruction::MemoryLoad(MemoryLoadInstruction::LHU(_)))
    ));
}

#[test]
fn decode_r_type_distinguishes_add_and_sub() {
    let register_file = RegisterFile::new(32);
    assert!(matches!(
        decode_word(r_word(0b0110011, 0b000, 0b0000000, 1, 2, 3), &register_file),
        Ok(Instruction::Alu(AluInstruction::ADD(_)))
    ));
    assert!(matches!(
        decode_word(r_word(0b0110011, 0b000, 0b0100000, 1, 2, 3), &register_file),
        Ok(Instruction::Alu(AluInstruction::SUB(_)))
    ));
    assert!(matches!(
        decode_word(r_word(0b0110011, 0b101, 0b0100000, 1, 2, 3), &register_file),
        Ok(Instruction::Alu(AluInstruction::SRA(_)))
    ));
}

#[test]
fn decode_shift_immediates_dispatch_to_r_format() {
    let register_file = RegisterFile::new(32);
    assert!(matches!(
        decode_word(r_word(0b0010011, 0b001, 0b0000000, 1, 2, 3), &register_file),
        Ok(Instruction::Alu(AluInstruction::SLLI(_)))
    ));
    assert!(matches!(
        decode_word(r_word(0b0010011, 0b101, 0b0000000, 1, 2, 3), &register_file),
        Ok(Instruction::Alu(AluInstruction::SRLI(_)))
    ));
    assert!(matches!(
        decode_word(r_word(0b0010011, 0b101, 0b0100000, 1, 2, 3), &register_file),
        Ok(Instruction::Alu(AluInstruction::SRAI(_)))
    ));
}

#[test]
fn decode_rejects_unknown_opcode_group() {
    let register_file = RegisterFile::new(32);
    let word = 0xffff_ffffu32;
    match decode_word(word, &register_file) {
        Err(DecodeError::BadInstruction { address, instruction }) => {
            assert_eq!(address, 0x100);
            assert_eq!(instruction, word);
        }
        _ => panic!("expected BadInstruction"),
    }
}

#[test]
fn decode_rejects_unknown_dispatch_keys() {
    let register_file = RegisterFile::new(32);
    // A load with funct3 not naming any width.
    assert!(decode_word(i_word(0b0000011, 0b011, 1, 0, 0), &register_file).is_err());
    // A register-register ALU word with an undefined funct7.
    assert!(decode_word(r_word(0b0110011, 0b000, 0b0000001, 1, 2, 3), &register_file).is_err());
    // A branch with an undefined condition.
    assert!(decode_word(b_word(0b010, 0, 0, 8), &register_file).is_err());
    // A store with an undefined width.
    assert!(decode_word(s_word(0b011, 0, 0, 4), &register_file).is_err());
}
