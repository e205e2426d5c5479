use rv32i_pipeline::bus::{BusInterface, BusReadResponse, BusWidth, BusWriteResponse};
use rv32i_pipeline::memory::Memory;

#[test]
fn fresh_memory_reads_zero() {
    let memory = Memory::new(8);
    assert_eq!(memory.read(0, BusWidth::Word), BusReadResponse::Success(0));
}

#[test]
fn initial_values_are_read_little_endian() {
    let memory = Memory::with_initial_values(vec![0xef, 0xbe, 0xad, 0xde]);
    assert_eq!(memory.read(0, BusWidth::Byte), BusReadResponse::Success(0xef));
    assert_eq!(memory.read(0, BusWidth::HalfWord), BusReadResponse::Success(0xbeef));
    assert_eq!(memory.read(0, BusWidth::Word), BusReadResponse::Success(0xdead_beef));
    assert_eq!(memory.read(1, BusWidth::HalfWord), BusReadResponse::Success(0xadbe));
}

#[test]
fn written_values_read_back() {
    let mut memory = Memory::new(16);
    assert_eq!(memory.write(4, 0xdead_beef, BusWidth::Word), BusWriteResponse::Success);
    assert_eq!(memory.read(4, BusWidth::Word), BusReadResponse::Success(0xdead_beef));
    assert_eq!(memory.read(4, BusWidth::Byte), BusReadResponse::Success(0xef));
    assert_eq!(memory.read(6, BusWidth::HalfWord), BusReadResponse::Success(0xdead));
}

#[test]
fn narrow_writes_keep_the_neighbouring_bytes() {
    let mut memory = Memory::with_initial_values(vec![0x11, 0x22, 0x33, 0x44]);
    assert_eq!(memory.write(1, 0xaabb_ccdd, BusWidth::Byte), BusWriteResponse::Success);
    assert_eq!(memory.read(0, BusWidth::Word), BusReadResponse::Success(0x4433_dd11));
    assert_eq!(memory.write(2, 0xaabb_ccdd, BusWidth::HalfWord), BusWriteResponse::Success);
    assert_eq!(memory.read(0, BusWidth::Word), BusReadResponse::Success(0xccdd_dd11));
}

#[test]
fn reads_past_the_end_are_out_of_bounds() {
    let memory = Memory::new(8);
    assert_eq!(memory.read(8, BusWidth::Byte), BusReadResponse::ReadOutOfBounds);
    assert_eq!(memory.read(5, BusWidth::Word), BusReadResponse::ReadOutOfBounds);
    assert_eq!(memory.read(4, BusWidth::Word), BusReadResponse::Success(0));
    assert_eq!(memory.read(0xffff_ffff, BusWidth::Byte), BusReadResponse::ReadOutOfBounds);
}

#[test]
fn writes_past_the_end_are_out_of_bounds_and_change_nothing() {
    let mut memory = Memory::with_initial_values(vec![0x11, 0x22, 0x33, 0x44]);
    assert_eq!(
        memory.write(3, 0xdead_beef, BusWidth::HalfWord),
        BusWriteResponse::WriteOutOfBounds
    );
    assert_eq!(memory.read(0, BusWidth::Word), BusReadResponse::Success(0x4433_2211));
}
