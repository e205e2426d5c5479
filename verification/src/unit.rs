pub mod alu;
pub mod branching;
pub mod decoder;
pub mod fetch;
pub mod memory_access;
pub mod write_back;

pub use alu::execute;
pub use branching::branch;
pub use decoder::{decode_instruction, DecodeError};
pub use fetch::fetch_instruction;
pub use memory_access::{load, store};
pub use write_back::write_back;

use crate::bus::{BusReadResponse, BusWriteResponse};
use vstd::prelude::*;

verus! {

/// Why a bus access failed: the non-success bus responses, with the two
/// out-of-bounds responses folded into one kind.
#[derive(Clone, Copy, PartialEq, Eq, Structural, Debug)]
pub enum BusFaultKind {
    Deferred,
    InvalidAddress,
    OutOfBounds,
}

/// A condition that is fatal for the simulated run: a word that does not
/// decode, or a bus access that did not succeed during fetch, load or
/// store. Each fault carries the address it arose at; a bad instruction
/// carries the raw word as well. Faults are surfaced to the caller, never
/// swallowed or retried.
#[derive(Clone, Copy, PartialEq, Eq, Structural, Debug)]
pub enum Fault {
    BadInstruction { address: u32, instruction: u32 },
    FetchFault { address: u32, kind: BusFaultKind },
    LoadFault { address: u32, kind: BusFaultKind },
    StoreFault { address: u32, kind: BusFaultKind },
}

/// The fault kind of a read response: `None` for a success, the matching
/// kind for every failure.
pub open spec fn read_fault_kind(response: BusReadResponse) -> Option<BusFaultKind> {
    match response {
        BusReadResponse::Success(_) => None,
        BusReadResponse::Deferred => Some(BusFaultKind::Deferred),
        BusReadResponse::InvalidAddress => Some(BusFaultKind::InvalidAddress),
        BusReadResponse::ReadOutOfBounds => Some(BusFaultKind::OutOfBounds),
    }
}

/// The fault kind of a write response: `None` for a success, the matching
/// kind for every failure.
pub open spec fn write_fault_kind(response: BusWriteResponse) -> Option<BusFaultKind> {
    match response {
        BusWriteResponse::Success => None,
        BusWriteResponse::Deferred => Some(BusFaultKind::Deferred),
        BusWriteResponse::InvalidAddress => Some(BusFaultKind::InvalidAddress),
        BusWriteResponse::WriteOutOfBounds => Some(BusFaultKind::OutOfBounds),
    }
}

/// The pending result of an ALU or load operation: the register it is
/// destined for and the value to store there. Consumed exactly once by the
/// write-back stage.
#[derive(Clone, Copy, PartialEq, Eq, Structural, Debug)]
pub struct RegisterWrite {
    pub index: u32,
    pub value: u32,
}

/// A fetched raw instruction word together with the program counter at the
/// moment it was fetched. The captured program counter follows the
/// instruction through every stage, so PC-relative arithmetic always uses
/// the instruction's own address.
#[derive(Clone, Copy, PartialEq, Eq, Structural, Debug)]
pub struct FetchResult {
    pub captured_pc: u32,
    pub instruction: u32,
}

} // verus!
