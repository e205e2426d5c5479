use crate::bus::{access_in_bounds, le_value, BusInterface, BusReadResponse, BusWidth};
use crate::unit::{read_fault_kind, BusFaultKind, Fault, FetchResult};
use vstd::prelude::*;

verus! {

/// Fetches the 32-bit word at `pc` over the bus. On success the result
/// carries the word and `pc` itself as the captured program counter; any
/// non-success bus response is surfaced as a fetch fault at `pc`.
pub fn fetch_instruction<M: BusInterface>(pc: u32, memory: &M) -> (result: Result<
    FetchResult,
    Fault,
>)
    ensures
        (match result {
            Ok(fetch_result) => fetch_result.captured_pc == pc && memory.read_response(
                pc,
                BusWidth::Word,
            ) == BusReadResponse::Success(fetch_result.instruction) && access_in_bounds(
                pc,
                BusWidth::Word,
                memory.contents().len(),
            ) && fetch_result.instruction == le_value(memory.contents(), pc, BusWidth::Word),
            Err(fault) => (match fault {
                Fault::FetchFault { address, kind } => address == pc && read_fault_kind(
                    memory.read_response(pc, BusWidth::Word),
                ) == Some(kind) && (kind == BusFaultKind::OutOfBounds ==> !access_in_bounds(
                    pc,
                    BusWidth::Word,
                    memory.contents().len(),
                )),
                _ => false,
            }),
        }),
{
    match memory.read(pc, BusWidth::Word) {
        BusReadResponse::Success(instruction) => Ok(FetchResult { captured_pc: pc, instruction }),
        BusReadResponse::Deferred => Err(
            Fault::FetchFault { address: pc, kind: BusFaultKind::Deferred },
        ),
        BusReadResponse::InvalidAddress => Err(
            Fault::FetchFault { address: pc, kind: BusFaultKind::InvalidAddress },
        ),
        BusReadResponse::ReadOutOfBounds => Err(
            Fault::FetchFault { address: pc, kind: BusFaultKind::OutOfBounds },
        ),
    }
}

} // verus!
