use rv32i_pipeline::instruction::{AluInstruction, DecodedRegisterValue, IType, RType, UType};
use rv32i_pipeline::unit::{execute, FetchResult};

fn fetched_at(pc: u32) -> FetchResult {
    FetchResult { captured_pc: pc, instruction: 0 }
}

fn r_operands(rd: u32, rs1_value: u32, rs2_value: u32) -> RType {
    RType {
        opcode: 0b0110011,
        full_opcode: 0,
        register_destination_index: rd,
        register_source_one: DecodedRegisterValue { index: 1, value: rs1_value },
        register_source_two: DecodedRegisterValue { index: 2, value: rs2_value },
    }
}

fn i_operands(rd: u32, rs1_value: u32, immediate: u32) -> IType {
    IType {
        opcode: 0b0010011,
        full_opcode: 0,
        register_destination_index: rd,
        register_source_one: DecodedRegisterValue { index: 1, value: rs1_value },
        immediate,
    }
}

#[test]
fn add_of_max_and_one_wraps_to_zero() {
    let write = execute(fetched_at(0), AluInstruction::ADD(r_operands(1, 0xffff_ffff, 1)));
    assert_eq!(write.index, 1);
    assert_eq!(write.value, 0);
}

#[test]
fn addi_wraps_and_never_faults() {
    let write = execute(fetched_at(0), AluInstruction::ADDI(i_operands(3, 0xffff_ffff, 1)));
    assert_eq!(write.value, 0);
    let write = execute(fetched_at(0), AluInstruction::ADDI(i_operands(3, 7, 0xffff_ffff)));
    assert_eq!(write.value, 6);
}

#[test]
fn sub_subtracts_the_second_operand_and_wraps() {
    let write = execute(fetched_at(0), AluInstruction::SUB(r_operands(1, 10, 3)));
    assert_eq!(write.value, 7);
    let write = execute(fetched_at(0), AluInstruction::SUB(r_operands(1, 5, 7)));
    assert_eq!(write.value, 0xffff_fffe);
    let write = execute(fetched_at(0), AluInstruction::SUB(r_operands(1, 0, 1)));
    assert_eq!(write.value, 0xffff_ffff);
}

#[test]
fn lui_loads_the_immediate() {
    let instr = UType {
        opcode: 0b0110111,
        full_opcode: 0b0110111,
        register_destination_index: 4,
        immediate: 0xabcd_e000,
    };
    let write = execute(fetched_at(0), AluInstruction::LUI(instr));
    assert_eq!(write.index, 4);
    assert_eq!(write.value, 0xabcd_e000);
}

#[test]
fn auipc_adds_the_captured_pc_wrapping() {
    let instr = UType {
        opcode: 0b0010111,
        full_opcode: 0b0010111,
        register_destination_index: 4,
        immediate: 0x0000_2000,
    };
    let write = execute(fetched_at(0xffff_f000), AluInstruction::AUIPC(instr));
    assert_eq!(write.value, 0x0000_1000);
}

#[test]
fn set_less_than_is_signed_and_sltu_unsigned() {
    let minus_one = 0xffff_ffffu32;
    let write = execute(fetched_at(0), AluInstruction::SLT(r_operands(1, minus_one, 1)));
    assert_eq!(write.value, 1);
    let write = execute(fetched_at(0), AluInstruction::SLTU(r_operands(1, minus_one, 1)));
    assert_eq!(write.value, 0);
    let write = execute(fetched_at(0), AluInstruction::SLTI(i_operands(1, minus_one, 1)));
    assert_eq!(write.value, 1);
    let write = execute(fetched_at(0), AluInstruction::SLTIU(i_operands(1, minus_one, 1)));
    assert_eq!(write.value, 0);
}

#[test]
fn shifts_use_the_low_five_bits_of_the_amount() {
    let write = execute(fetched_at(0), AluInstruction::SLL(r_operands(1, 1, 4)));
    assert_eq!(write.value, 16);
    let write = execute(fetched_at(0), AluInstruction::SLL(r_operands(1, 1, 33)));
    assert_eq!(write.value, 2);
    let write = execute(fetched_at(0), AluInstruction::SRL(r_operands(1, 0x8000_0000, 31)));
    assert_eq!(write.value, 1);
}

#[test]
fn arithmetic_right_shift_preserves_the_sign() {
    let write = execute(fetched_at(0), AluInstruction::SRA(r_operands(1, 0x8000_0000, 31)));
    assert_eq!(write.value, 0xffff_ffff);
    let write = execute(fetched_at(0), AluInstruction::SRAI(r_operands(1, 0xffff_fff0, 4)));
    assert_eq!(write.value, 0xffff_ffff);
    let write = execute(fetched_at(0), AluInstruction::SRLI(r_operands(1, 0xffff_fff0, 4)));
    assert_eq!(write.value, 0x0fff_ffff);
}

#[test]
fn bitwise_operations_combine_the_operands() {
    let write = execute(fetched_at(0), AluInstruction::XOR(r_operands(1, 0b1100, 0b1010)));
    assert_eq!(write.value, 0b0110);
    let write = execute(fetched_at(0), AluInstruction::OR(r_operands(1, 0b1100, 0b1010)));
    assert_eq!(write.value, 0b1110);
    let write = execute(fetched_at(0), AluInstruction::AND(r_operands(1, 0b1100, 0b1010)));
    assert_eq!(write.value, 0b1000);
    let write = execute(fetched_at(0), AluInstruction::XORI(i_operands(1, 0b1100, 0b1010)));
    assert_eq!(write.value, 0b0110);
    let write = execute(fetched_at(0), AluInstruction::ORI(i_operands(1, 0b1100, 0b1010)));
    assert_eq!(write.value, 0b1110);
    let write = execute(fetched_at(0), AluInstruction::ANDI(i_operands(1, 0b1100, 0b1010)));
    assert_eq!(write.value, 0b1000);
}
