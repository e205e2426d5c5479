use crate::bus::{
    access_in_bounds, le_store, le_value, BusInterface, BusReadResponse, BusWidth,
    BusWriteResponse,
};
use crate::instruction::{IType, MemoryLoadInstruction, MemoryStoreInstruction, SType};
use crate::unit::{read_fault_kind, write_fault_kind, BusFaultKind, Fault, RegisterWrite};
use vstd::prelude::*;

verus! {

/// The S-format fields a store instruction carries.
pub open spec fn store_s_type(instruction: MemoryStoreInstruction) -> SType {
    match instruction {
        MemoryStoreInstruction::SB(instr) => instr,
        MemoryStoreInstruction::SH(instr) => instr,
        MemoryStoreInstruction::SW(instr) => instr,
    }
}

/// The bus width a store instruction writes.
pub open spec fn store_width(instruction: MemoryStoreInstruction) -> BusWidth {
    match instruction {
        MemoryStoreInstruction::SB(_) => BusWidth::Byte,
        MemoryStoreInstruction::SH(_) => BusWidth::HalfWord,
        MemoryStoreInstruction::SW(_) => BusWidth::Word,
    }
}

/// The effective address of a store: the first operand's decode-time value
/// plus the sign-extended immediate, wrapping.
pub open spec fn store_address(instruction: MemoryStoreInstruction) -> u32 {
    store_s_type(instruction).register_source_one.value.wrapping_add(
        store_s_type(instruction).immediate,
    )
}

/// The value a store puts on the bus: the second operand's decode-time
/// value; the bus write keeps only its low `width` bytes.
pub open spec fn store_value(instruction: MemoryStoreInstruction) -> u32 {
    store_s_type(instruction).register_source_two.value
}

/// Issues one store to the bus at the instruction's effective address,
/// with the width its opcode selects. On success the addressed bytes hold
/// the low bytes of the second operand, little-endian, and nothing else
/// changed; any non-success response is surfaced as a store fault and the
/// store's bytes are unchanged.
pub fn store<M: BusInterface>(decode_result: MemoryStoreInstruction, memory: &mut M) -> (result:
    Result<(), Fault>)
    ensures
        (match result {
            Ok(_) => old(memory).write_response(
                store_address(decode_result),
                store_value(decode_result),
                store_width(decode_result),
            ) == BusWriteResponse::Success && access_in_bounds(
                store_address(decode_result),
                store_width(decode_result),
                old(memory).contents().len(),
            ) && final(memory).contents() == le_store(
                old(memory).contents(),
                store_address(decode_result),
                store_value(decode_result),
                store_width(decode_result),
            ),
            Err(fault) => final(memory).contents() == old(memory).contents() && (match fault {
                Fault::StoreFault { address, kind } => address == store_address(decode_result)
                    && write_fault_kind(
                    old(memory).write_response(
                        store_address(decode_result),
                        store_value(decode_result),
                        store_width(decode_result),
                    ),
                ) == Some(kind) && (kind == BusFaultKind::OutOfBounds ==> !access_in_bounds(
                    store_address(decode_result),
                    store_width(decode_result),
                    old(memory).contents().len(),
                )),
                _ => false,
            }),
        }),
{
    let (address, value, width) = match decode_result {
        MemoryStoreInstruction::SB(instr) => (
            instr.register_source_one.value.wrapping_add(instr.immediate),
            instr.register_source_two.value,
            BusWidth::Byte,
        ),
        MemoryStoreInstruction::SH(instr) => (
            instr.register_source_one.value.wrapping_add(instr.immediate),
            instr.register_source_two.value,
            BusWidth::HalfWord,
        ),
        MemoryStoreInstruction::SW(instr) => (
            instr.register_source_one.value.wrapping_add(instr.immediate),
            instr.register_source_two.value,
            BusWidth::Word,
        ),
    };
    match memory.write(address, value, width) {
        BusWriteResponse::Success => Ok(()),
        BusWriteResponse::Deferred => Err(
            Fault::StoreFault { address, kind: BusFaultKind::Deferred },
        ),
        BusWriteResponse::InvalidAddress => Err(
            Fault::StoreFault { address, kind: BusFaultKind::InvalidAddress },
        ),
        BusWriteResponse::WriteOutOfBounds => Err(
            Fault::StoreFault { address, kind: BusFaultKind::OutOfBounds },
        ),
    }
}

/// The I-format fields a load instruction carries.
pub open spec fn load_i_type(instruction: MemoryLoadInstruction) -> IType {
    match instruction {
        MemoryLoadInstruction::LB(instr) => instr,
        MemoryLoadInstruction::LH(instr) => instr,
        MemoryLoadInstruction::LW(instr) => instr,
        MemoryLoadInstruction::LBU(instr) => instr,
        MemoryLoadInstruction::LHU(instr) => instr,
    }
}

/// The bus width a load instruction reads.
pub open spec fn load_width(instruction: MemoryLoadInstruction) -> BusWidth {
    match instruction {
        MemoryLoadInstruction::LB(_) => BusWidth::Byte,
        MemoryLoadInstruction::LBU(_) => BusWidth::Byte,
        MemoryLoadInstruction::LH(_) => BusWidth::HalfWord,
        MemoryLoadInstruction::LHU(_) => BusWidth::HalfWord,
        MemoryLoadInstruction::LW(_) => BusWidth::Word,
    }
}

/// The effective address of a load: the operand's decode-time value plus
/// the sign-extended immediate, wrapping.
pub open spec fn load_address(instruction: MemoryLoadInstruction) -> u32 {
    load_i_type(instruction).register_source_one.value.wrapping_add(
        load_i_type(instruction).immediate,
    )
}

/// The register value a load produces from the raw bus value: sign-
/// extended to 32 bits for LB and LH, zero-extended for LBU and LHU,
/// unchanged for LW.
pub open spec fn load_value_spec(instruction: MemoryLoadInstruction, raw: u32) -> u32 {
    match instruction {
        MemoryLoadInstruction::LB(_) => ((raw as u8) as i8) as u32,
        MemoryLoadInstruction::LBU(_) => (raw as u8) as u32,
        MemoryLoadInstruction::LH(_) => ((raw as u16) as i16) as u32,
        MemoryLoadInstruction::LHU(_) => (raw as u16) as u32,
        MemoryLoadInstruction::LW(_) => raw,
    }
}

/// Issues one load from the bus at the instruction's effective address,
/// with the width and signedness its opcode selects. On success the result
/// is a pending write of the extended value to the destination register;
/// any non-success response is surfaced as a load fault, never as a
/// substitute value.
pub fn load<M: BusInterface>(decode_result: MemoryLoadInstruction, memory: &M) -> (result: Result<
    RegisterWrite,
    Fault,
>)
    ensures
        (match result {
            Ok(register_write) => memory.read_response(
                load_address(decode_result),
                load_width(decode_result),
            ) matches BusReadResponse::Success(raw) && access_in_bounds(
                load_address(decode_result),
                load_width(decode_result),
                memory.contents().len(),
            ) && register_write.index == load_i_type(decode_result).register_destination_index
                && register_write.value == load_value_spec(
                decode_result,
                le_value(memory.contents(), load_address(decode_result), load_width(decode_result)),
            ),
            Err(fault) => (match fault {
                Fault::LoadFault { address, kind } => address == load_address(decode_result)
                    && read_fault_kind(
                    memory.read_response(load_address(decode_result), load_width(decode_result)),
                ) == Some(kind) && (kind == BusFaultKind::OutOfBounds ==> !access_in_bounds(
                    load_address(decode_result),
                    load_width(decode_result),
                    memory.contents().len(),
                )),
                _ => false,
            }),
        }),
{
    let (address, width, index) = match decode_result {
        MemoryLoadInstruction::LB(instr) => (
            instr.register_source_one.value.wrapping_add(instr.immediate),
            BusWidth::Byte,
            instr.register_destination_index,
        ),
        MemoryLoadInstruction::LBU(instr) => (
            instr.register_source_one.value.wrapping_add(instr.immediate),
            BusWidth::Byte,
            instr.register_destination_index,
        ),
        MemoryLoadInstruction::LH(instr) => (
            instr.register_source_one.value.wrapping_add(instr.immediate),
            BusWidth::HalfWord,
            instr.register_destination_index,
        ),
        MemoryLoadInstruction::LHU(instr) => (
            instr.register_source_one.value.wrapping_add(instr.immediate),
            BusWidth::HalfWord,
            instr.register_destination_index,
        ),
        MemoryLoadInstruction::LW(instr) => (
            instr.register_source_one.value.wrapping_add(instr.immediate),
            BusWidth::Word,
            instr.register_destination_index,
        ),
    };
    match memory.read(address, width) {
        BusReadResponse::Success(raw) => {
            let value = match decode_result {
                MemoryLoadInstruction::LB(_) => ((raw as u8) as i8) as u32,
                MemoryLoadInstruction::LBU(_) => (raw as u8) as u32,
                MemoryLoadInstruction::LH(_) => ((raw as u16) as i16) as u32,
                MemoryLoadInstruction::LHU(_) => (raw as u16) as u32,
                MemoryLoadInstruction::LW(_) => raw,
            };
            Ok(RegisterWrite { index, value })
        },
        BusReadResponse::Deferred => Err(
            Fault::LoadFault { address, kind: BusFaultKind::Deferred },
        ),
        BusReadResponse::InvalidAddress => Err(
            Fault::LoadFault { address, kind: BusFaultKind::InvalidAddress },
        ),
        BusReadResponse::ReadOutOfBounds => Err(
            Fault::LoadFault { address, kind: BusFaultKind::OutOfBounds },
        ),
    }
}

} // verus!
