use crate::bus::BusInterface;
use crate::register_file::RegisterFile;
use crate::unit::Fault;
use vstd::prelude::*;

verus! {

/// A pipeline controller. One `execute` call advances the machine by
/// exactly one simulated clock: it retires last cycle's pending register
/// write, fetches the word at `pc`, moves every occupied stage forward,
/// and yields the next program counter, or the fault that ended the step.
///
/// Each implementation describes itself with spec functions: `wf` is its
/// latch well-formedness, and the `step_*` functions give, as functions of
/// the state before the call, the fault the step surfaces (if any), the
/// latches, program counter and store bytes after a fault-free step, and
/// the registers after retirement. `execute` is then pinned exactly: it
/// faults if and only if `step_fault` says so, with that very fault, and
/// otherwise effects precisely the described transition; a faulting step
/// leaves the latches and the store unchanged. The registers always
/// retire, fault or not, because retirement precedes every other stage.
pub trait Pipeline<M: BusInterface>: Sized {
    /// The controller's internal invariant on its latches.
    spec fn wf(&self) -> bool;

    /// Whether the controller holds its initial state: every stage empty,
    /// no instruction in flight.
    spec fn initial(&self) -> bool;

    /// The fault one step from this state surfaces: `None` when the step
    /// completes.
    spec fn step_fault(&self, pc: u32, registers: Seq<u32>, memory: M) -> Option<Fault>;

    /// The latch state after one fault-free step.
    spec fn step_state(&self, pc: u32, registers: Seq<u32>, memory: M) -> Self;

    /// The program counter after one fault-free step.
    spec fn step_pc(&self, pc: u32, registers: Seq<u32>, memory: M) -> u32;

    /// The registers after this state's pending write retires.
    spec fn step_registers(&self, registers: Seq<u32>) -> Seq<u32>;

    /// The store bytes after one fault-free step.
    spec fn step_contents(&self, memory: M) -> Seq<u8>;

    /// Creates the controller with every stage empty.
    fn new() -> (pipeline: Self)
        ensures
            pipeline.wf(),
            pipeline.initial(),
    ;

    /// Advances one simulated clock.
    fn execute(&mut self, pc: u32, register_file: &mut RegisterFile, memory: &mut M) -> (result:
        Result<u32, Fault>)
        requires
            old(self).wf(),
            old(register_file)@.len() == 32,
        ensures
            final(self).wf(),
            final(register_file)@.len() == old(register_file)@.len(),
            final(register_file)@ == old(self).step_registers(old(register_file)@),
            (match result {
                Ok(next_pc) => old(self).step_fault(pc, old(register_file)@, *old(memory))
                    is None && *final(self) == old(self).step_state(
                    pc,
                    old(register_file)@,
                    *old(memory),
                ) && next_pc == old(self).step_pc(pc, old(register_file)@, *old(memory))
                    && final(memory).contents() == old(self).step_contents(*old(memory)),
                Err(fault) => old(self).step_fault(pc, old(register_file)@, *old(memory))
                    == Some(fault) && *final(self) == *old(self) && final(memory).contents()
                    == old(memory).contents(),
            }),
    ;
}

} // verus!
