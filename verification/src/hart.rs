use crate::bus::BusInterface;
use crate::pipeline::Pipeline;
use crate::register_file::RegisterFile;
use crate::unit::Fault;
use core::marker::PhantomData;
use vstd::prelude::*;

verus! {

/// One hardware execution thread: a program counter, a register file of
/// 32 registers and a pipeline controller, coupled into a single unit that
/// advances one simulated clock per `execute` call against a backing
/// store.
pub struct Hart<M, P: Pipeline<M>> where M: BusInterface {
    pub program_counter: u32,
    pub register_file: RegisterFile,
    pub pipeline: P,
    pub phantom: PhantomData<M>,
}

impl<M: BusInterface, P: Pipeline<M>> Hart<M, P> {
    /// The hart's invariant: 32 registers and a well-formed pipeline.
    /// `new` establishes it and `execute` preserves it.
    pub open spec fn wf(&self) -> bool {
        self.register_file@.len() == 32 && self.pipeline.wf()
    }

    /// Creates a hart with program counter 0, zeroed registers and an
    /// empty pipeline: no instruction is in flight.
    pub fn new() -> (hart: Hart<M, P>)
        ensures
            hart.wf(),
            hart.program_counter == 0,
            hart.register_file@ == Seq::new(32, |i: int| 0u32),
            hart.pipeline.initial(),
    {
        Hart {
            program_counter: 0,
            register_file: RegisterFile::new(32),
            pipeline: P::new(),
            phantom: PhantomData,
        }
    }

    /// Advances one simulated clock. The pipeline effects exactly the
    /// transition its `step` spec functions describe, and the program
    /// counter takes the pipeline's next value; a fault is surfaced to
    /// the caller and leaves the program counter and the store unchanged.
    /// The registers retire the pending write either way.
    pub fn execute(&mut self, memory: &mut M) -> (result: Result<(), Fault>)
        requires
            old(self).wf(),
        ensures
            final(self).wf(),
            final(self).register_file@ == old(self).pipeline.step_registers(
                old(self).register_file@,
            ),
            (match result {
                Ok(_) => old(self).pipeline.step_fault(
                    old(self).program_counter,
                    old(self).register_file@,
                    *old(memory),
                ) is None && final(self).pipeline == old(self).pipeline.step_state(
                    old(self).program_counter,
                    old(self).register_file@,
                    *old(memory),
                ) && final(self).program_counter == old(self).pipeline.step_pc(
                    old(self).program_counter,
                    old(self).register_file@,
                    *old(memory),
                ) && final(memory).contents() == old(self).pipeline.step_contents(*old(memory)),
                Err(fault) => old(self).pipeline.step_fault(
                    old(self).program_counter,
                    old(self).register_file@,
                    *old(memory),
                ) == Some(fault) && final(self).pipeline == old(self).pipeline
                    && final(self).program_counter == old(self).program_counter
                    && final(memory).contents() == old(memory).contents(),
            }),
    {
        match self.pipeline.execute(self.program_counter, &mut self.register_file, memory) {
            Ok(next_pc) => {
                self.program_counter = next_pc;
                Ok(())
            },
            Err(fault) => Err(fault),
        }
    }
}

} // verus!
