use rv32i_pipeline::bus::{BusInterface, BusReadResponse, BusWidth};
use rv32i_pipeline::instruction::{
    DecodedRegisterValue, IType, MemoryLoadInstruction, MemoryStoreInstruction, SType,
};
use rv32i_pipeline::memory::Memory;
use rv32i_pipeline::unit::{fetch_instruction, load, store, BusFaultKind, Fault};

fn load_operands(rd: u32, base: u32, immediate: u32) -> IType {
    IType {
        opcode: 0b0000011,
        full_opcode: 0,
        register_destination_index: rd,
        register_source_one: DecodedRegisterValue { index: 1, value: base },
        immediate,
    }
}

fn store_operands(base: u32, value: u32, immediate: u32) -> SType {
    SType {
        opcode: 0b0100011,
        full_opcode: 0,
        register_source_one: DecodedRegisterValue { index: 1, value: base },
        register_source_two: DecodedRegisterValue { index: 2, value },
        immediate,
    }
}

#[test]
fn loads_extend_by_width_and_sign() {
    let memory = Memory::with_initial_values(vec![0x80, 0x7f, 0xff, 0x81, 0x01, 0x00, 0x00, 0x00]);

    let write = load(MemoryLoadInstruction::LB(load_operands(1, 0, 0)), &memory).unwrap();
    assert_eq!(write.index, 1);
    assert_eq!(write.value, 0xffff_ff80);
    let write = load(MemoryLoadInstruction::LBU(load_operands(1, 0, 0)), &memory).unwrap();
    assert_eq!(write.value, 0x0000_0080);
    let write = load(MemoryLoadInstruction::LB(load_operands(1, 0, 1)), &memory).unwrap();
    assert_eq!(write.value, 0x0000_007f);

    let write = load(MemoryLoadInstruction::LH(load_operands(1, 0, 2)), &memory).unwrap();
    assert_eq!(write.value, 0xffff_81ff);
    let write = load(MemoryLoadInstruction::LHU(load_operands(1, 0, 2)), &memory).unwrap();
    assert_eq!(write.value, 0x0000_81ff);

    let write = load(MemoryLoadInstruction::LW(load_operands(1, 0, 0)), &memory).unwrap();
    assert_eq!(write.value, 0x81ff_7f80);
}

#[test]
fn load_address_is_base_plus_immediate_wrapping() {
    let memory = Memory::with_initial_values(vec![0x11, 0x22, 0x33, 0x44]);
    // base 4 with immediate -2 (as a wrapped 32-bit value) lands on byte 2
    let write = load(
        MemoryLoadInstruction::LBU(load_operands(1, 4, 0xffff_fffe)),
        &memory,
    )
    .unwrap();
    assert_eq!(write.value, 0x33);
}

#[test]
fn load_surfaces_an_out_of_bounds_fault() {
    let memory = Memory::new(4);
    match load(MemoryLoadInstruction::LW(load_operands(1, 0, 2)), &memory) {
        Err(Fault::LoadFault { address, kind }) => {
            assert_eq!(address, 2);
            assert_eq!(kind, BusFaultKind::OutOfBounds);
        }
        other => panic!("expected a load fault, got {:?}", other),
    }
}

#[test]
fn stores_truncate_to_their_width() {
    let mut memory = Memory::with_initial_values(vec![0xaa; 8]);

    store(
        MemoryStoreInstruction::SB(store_operands(0, 0xdead_beef, 0)),
        &mut memory,
    )
    .unwrap();
    assert_eq!(memory.read(0, BusWidth::Word), BusReadResponse::Success(0xaaaa_aaef));

    store(
        MemoryStoreInstruction::SH(store_operands(0, 0xdead_beef, 4)),
        &mut memory,
    )
    .unwrap();
    assert_eq!(memory.read(4, BusWidth::Word), BusReadResponse::Success(0xaaaa_beef));
}

#[test]
fn store_surfaces_an_out_of_bounds_fault() {
    let mut memory = Memory::new(4);
    match store(
        MemoryStoreInstruction::SW(store_operands(4, 0x1234_5678, 0)),
        &mut memory,
    ) {
        Err(Fault::StoreFault { address, kind }) => {
            assert_eq!(address, 4);
            assert_eq!(kind, BusFaultKind::OutOfBounds);
        }
        other => panic!("expected a store fault, got {:?}", other),
    }
    // The failed store changed nothing.
    assert_eq!(memory.read(0, BusWidth::Word), BusReadResponse::Success(0));
}

#[test]
fn fetch_returns_the_word_and_the_captured_pc() {
    let memory = Memory::with_initial_values(vec![0x13, 0x00, 0x00, 0x00, 0xef, 0xbe, 0xad, 0xde]);
    let fetched = fetch_instruction(4, &memory).unwrap();
    assert_eq!(fetched.captured_pc, 4);
    assert_eq!(fetched.instruction, 0xdead_beef);
}

#[test]
fn fetch_surfaces_an_out_of_bounds_fault() {
    let memory = Memory::new(6);
    match fetch_instruction(4, &memory) {
        Err(Fault::FetchFault { address, kind }) => {
            assert_eq!(address, 4);
            assert_eq!(kind, BusFaultKind::OutOfBounds);
        }
        other => panic!("expected a fetch fault, got {:?}", other),
    }
}
