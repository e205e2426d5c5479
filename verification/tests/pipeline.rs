use rv32i_pipeline::bus::{BusInterface, BusReadResponse, BusWidth};
use rv32i_pipeline::hart::Hart;
use rv32i_pipeline::memory::Memory;
use rv32i_pipeline::pipeline::Pipeline;
use rv32i_pipeline::register_file::RegisterFile;
use rv32i_pipeline::simple_pipeline::SimplePipeline;
use rv32i_pipeline::unit::{BusFaultKind, Fault};

fn addi_word(rd: u32, rs1: u32, imm: u32) -> u32 {
    (imm << 20) | (rs1 << 15) | (rd << 7) | 0b0010011
}

fn nop_word() -> u32 {
    addi_word(0, 0, 0)
}

fn load_word(funct3: u32, rd: u32, rs1: u32, imm: u32) -> u32 {
    (imm << 20) | (rs1 << 15) | (funct3 << 12) | (rd << 7) | 0b0000011
}

fn sw_word(rs1: u32, rs2: u32, imm: u32) -> u32 {
    (((imm >> 5) & 0x7f) << 25) | (rs2 << 20) | (rs1 << 15) | (0b010 << 12) | ((imm & 0x1f) << 7)
        | 0b0100011
}

fn beq_word(rs1: u32, rs2: u32, imm: u32) -> u32 {
    (((imm >> 12) & 1) << 31) | (((imm >> 5) & 0x3f) << 25) | (rs2 << 20) | (rs1 << 15)
        | (((imm >> 1) & 0xf) << 8) | (((imm >> 11) & 1) << 7) | 0b1100011
}

fn program_bytes(words: &[u32], size: usize) -> Vec<u8> {
    let mut bytes = vec![0u8; size];
    for (i, word) in words.iter().enumerate() {
        bytes[4 * i..4 * i + 4].copy_from_slice(&word.to_le_bytes());
    }
    bytes
}

fn fresh_pipeline() -> SimplePipeline {
    <SimplePipeline as Pipeline<Memory>>::new()
}

#[test]
fn branch_squash_discards_the_fetched_instruction() {
    assert_eq!(beq_word(0, 0, 8), 0x0000_0463);
    let words = [
        beq_word(0, 0, 8),
        addi_word(1, 0, 99),
        nop_word(),
        nop_word(),
        nop_word(),
        nop_word(),
        nop_word(),
        nop_word(),
    ];
    let mut memory = Memory::with_initial_values(program_bytes(&words, 64));
    let mut register_file = RegisterFile::new(32);
    let mut pipeline = fresh_pipeline();

    let mut pc = 0u32;
    pc = pipeline.execute(pc, &mut register_file, &mut memory).unwrap();
    assert_eq!(pc, 4);
    pc = pipeline.execute(pc, &mut register_file, &mut memory).unwrap();
    assert_eq!(pc, 8);
    assert_eq!(register_file.read(1), 0);

    // The squashed instruction never retires later either.
    for _ in 0..4 {
        pc = pipeline.execute(pc, &mut register_file, &mut memory).unwrap();
        assert_eq!(register_file.read(1), 0);
    }
}

#[test]
fn store_then_load_round_trips_through_memory() {
    let words = [
        load_word(0b010, 1, 0, 0x40),
        nop_word(),
        nop_word(),
        nop_word(),
        sw_word(0, 1, 0x84),
        load_word(0b010, 2, 0, 0x84),
        nop_word(),
        nop_word(),
        nop_word(),
        nop_word(),
    ];
    let mut bytes = program_bytes(&words, 0x100);
    bytes[0x40..0x44].copy_from_slice(&0xdead_beefu32.to_le_bytes());
    let mut memory = Memory::with_initial_values(bytes);
    let mut register_file = RegisterFile::new(32);
    let mut pipeline = fresh_pipeline();

    let mut pc = 0u32;
    for _ in 0..10 {
        pc = pipeline.execute(pc, &mut register_file, &mut memory).unwrap();
    }
    assert_eq!(register_file.read(1), 0xdead_beef);
    assert_eq!(register_file.read(2), 0xdead_beef);
    assert_eq!(memory.read(0x84, BusWidth::Word), BusReadResponse::Success(0xdead_beef));
}

#[test]
fn out_of_bounds_load_is_a_fatal_fault_not_a_zero() {
    let words = [load_word(0b000, 1, 0, 0x200), nop_word(), nop_word(), nop_word()];
    let mut memory = Memory::with_initial_values(program_bytes(&words, 0x100));
    let mut register_file = RegisterFile::new(32);
    let mut pipeline = fresh_pipeline();

    let mut pc = 0u32;
    for _ in 0..3 {
        pc = pipeline.execute(pc, &mut register_file, &mut memory).unwrap();
    }
    match pipeline.execute(pc, &mut register_file, &mut memory) {
        Err(Fault::LoadFault { address, kind }) => {
            assert_eq!(address, 0x200);
            assert_eq!(kind, BusFaultKind::OutOfBounds);
        }
        other => panic!("expected a load fault, got {:?}", other),
    }
    assert_eq!(register_file.read(1), 0);
}

#[test]
fn out_of_bounds_store_is_a_fatal_fault() {
    let words = [sw_word(0, 1, 0x180), nop_word(), nop_word(), nop_word()];
    let mut memory = Memory::with_initial_values(program_bytes(&words, 0x100));
    let mut register_file = RegisterFile::new(32);
    let mut pipeline = fresh_pipeline();

    let mut pc = 0u32;
    for _ in 0..3 {
        pc = pipeline.execute(pc, &mut register_file, &mut memory).unwrap();
    }
    match pipeline.execute(pc, &mut register_file, &mut memory) {
        Err(Fault::StoreFault { address, kind }) => {
            assert_eq!(address, 0x180);
            assert_eq!(kind, BusFaultKind::OutOfBounds);
        }
        other => panic!("expected a store fault, got {:?}", other),
    }
}

#[test]
fn undecodable_word_is_a_fatal_fault_with_address_and_word() {
    let words = [0xffff_ffffu32];
    let mut memory = Memory::with_initial_values(program_bytes(&words, 64));
    let mut register_file = RegisterFile::new(32);
    let mut pipeline = fresh_pipeline();

    let mut pc = 0u32;
    pc = pipeline.execute(pc, &mut register_file, &mut memory).unwrap();
    match pipeline.execute(pc, &mut register_file, &mut memory) {
        Err(Fault::BadInstruction { address, instruction }) => {
            assert_eq!(address, 0);
            assert_eq!(instruction, 0xffff_ffff);
        }
        other => panic!("expected a decode fault, got {:?}", other),
    }
}

#[test]
fn fetch_past_the_store_is_a_fatal_fault() {
    let mut memory = Memory::new(2);
    let mut register_file = RegisterFile::new(32);
    let mut pipeline = fresh_pipeline();

    match pipeline.execute(0, &mut register_file, &mut memory) {
        Err(Fault::FetchFault { address, kind }) => {
            assert_eq!(address, 0);
            assert_eq!(kind, BusFaultKind::OutOfBounds);
        }
        other => panic!("expected a fetch fault, got {:?}", other),
    }
}

#[test]
fn close_dependent_instruction_reads_the_stale_value() {
    // Operands are snapshotted at decode and there is no forwarding: a
    // dependent instruction one slot behind its producer reads the old
    // register value.
    let words = [
        addi_word(1, 0, 7),
        addi_word(2, 1, 1),
        nop_word(),
        nop_word(),
        nop_word(),
        nop_word(),
        nop_word(),
        nop_word(),
    ];
    let mut memory = Memory::with_initial_values(program_bytes(&words, 64));
    let mut register_file = RegisterFile::new(32);
    let mut pipeline = fresh_pipeline();

    let mut pc = 0u32;
    for _ in 0..8 {
        pc = pipeline.execute(pc, &mut register_file, &mut memory).unwrap();
    }
    assert_eq!(register_file.read(1), 7);
    assert_eq!(register_file.read(2), 1);
}

#[test]
fn dependent_instruction_three_slots_later_reads_the_fresh_value() {
    // Write-back precedes decode within one clock, so the fourth
    // instruction after a producer sees its result.
    let words = [
        addi_word(1, 0, 7),
        nop_word(),
        nop_word(),
        addi_word(2, 1, 1),
        nop_word(),
        nop_word(),
        nop_word(),
        nop_word(),
    ];
    let mut memory = Memory::with_initial_values(program_bytes(&words, 64));
    let mut register_file = RegisterFile::new(32);
    let mut pipeline = fresh_pipeline();

    let mut pc = 0u32;
    for _ in 0..8 {
        pc = pipeline.execute(pc, &mut register_file, &mut memory).unwrap();
    }
    assert_eq!(register_file.read(1), 7);
    assert_eq!(register_file.read(2), 8);
}

#[test]
fn hart_couples_counter_registers_and_pipeline() {
    let words = [
        beq_word(0, 0, 8),
        addi_word(1, 0, 99),
        addi_word(2, 0, 5),
        nop_word(),
        nop_word(),
        nop_word(),
        nop_word(),
        nop_word(),
    ];
    let mut memory = Memory::with_initial_values(program_bytes(&words, 64));
    let mut hart: Hart<Memory, SimplePipeline> = Hart::new();

    assert_eq!(hart.program_counter, 0);
    hart.execute(&mut memory).unwrap();
    hart.execute(&mut memory).unwrap();
    assert_eq!(hart.program_counter, 8);
    for _ in 0..6 {
        hart.execute(&mut memory).unwrap();
    }
    assert_eq!(hart.register_file.read(1), 0);
    assert_eq!(hart.register_file.read(2), 5);
}
