use crate::bus::{le_store, le_value, BusInterface, BusReadResponse, BusWidth};
use crate::instruction::Instruction;
use crate::pipeline::Pipeline;
use crate::register_file::{write_spec, RegisterFile};
use crate::unit::alu::{alu_destination, alu_spec, execute};
use crate::unit::branching::{branch, branch_spec};
use crate::unit::decoder::{
    decode_instruction, decode_spec, lemma_register_index_bounds, DecodeError,
};
use crate::unit::fetch::fetch_instruction;
use crate::unit::memory_access::{
    load, load_address, load_i_type, load_value_spec, load_width, store, store_address,
    store_value, store_width,
};
use crate::unit::write_back::write_back;
use crate::unit::{read_fault_kind, write_fault_kind, Fault, FetchResult, RegisterWrite};
use vstd::prelude::*;

verus! {

/// The decode-stage input latch: a fetched word awaiting decode.
#[derive(Clone, Copy, PartialEq, Eq, Structural, Debug)]
pub struct DecodedInput {
    pub fetch_result: FetchResult,
}

/// The execute-stage input latch: a decoded instruction together with its
/// fetch data.
#[derive(Clone, Copy, PartialEq, Eq, Structural, Debug)]
pub struct AluInput {
    pub fetch_result: FetchResult,
    pub decoded_instruction: Instruction,
}

/// The memory-stage input latch: the decoded instruction and the pending
/// register write the execute stage produced, if any.
#[derive(Clone, Copy, PartialEq, Eq, Structural, Debug)]
pub struct MemoryAccessInput {
    pub fetch_result: FetchResult,
    pub decoded_instruction: Instruction,
    pub operation: Option<RegisterWrite>,
}

/// The write-back input latch: the instruction's final pending register
/// write, if any.
#[derive(Clone, Copy, PartialEq, Eq, Structural, Debug)]
pub struct WriteBackInput {
    pub fetch_result: FetchResult,
    pub decoded_instruction: Instruction,
    pub operation: Option<RegisterWrite>,
}

/// The pipeline controller's whole state: one optional latch per stage
/// boundary, each `None` when no instruction occupies that stage.
#[derive(Clone, Copy, PartialEq, Eq, Structural, Debug)]
pub struct SimplePipeline {
    pub decode_input: Option<DecodedInput>,
    pub execute_input: Option<AluInput>,
    pub memory_access_input: Option<MemoryAccessInput>,
    pub write_back_input: Option<WriteBackInput>,
}

/// Whether an in-flight instruction's destination register index selects
/// one of the 32 registers. Decode only ever produces five-bit indices;
/// this is the part of that fact the later stages rely on.
pub open spec fn destination_in_range(instruction: Instruction) -> bool {
    match instruction {
        Instruction::Alu(instr) => alu_destination(instr) < 32,
        Instruction::MemoryLoad(instr) => load_i_type(instr).register_destination_index < 32,
        Instruction::Branching(_) => true,
        Instruction::MemoryStore(_) => true,
    }
}

/// The controller's latch invariant: every pending register write and
/// every in-flight destination register selects one of the 32 registers.
pub open spec fn wf_spec(state: SimplePipeline) -> bool {
    &&& (state.execute_input matches Some(input) ==> destination_in_range(
        input.decoded_instruction,
    ))
    &&& (state.memory_access_input matches Some(input) ==> destination_in_range(
        input.decoded_instruction,
    ) && (input.operation matches Some(operation) ==> operation.index < 32))
    &&& (state.write_back_input matches Some(input) ==> (input.operation matches Some(operation)
        ==> operation.index < 32))
}

/// The registers after this state's pending write retires: the write-back
/// latch's operation applied, writes to register 0 discarded.
pub open spec fn retire_spec(state: SimplePipeline, registers: Seq<u32>) -> Seq<u32> {
    match state.write_back_input {
        Some(input) => match input.operation {
            Some(operation) => write_spec(registers, operation.index as int, operation.value),
            None => registers,
        },
        None => registers,
    }
}

/// The memory stage's latch output when its bus access succeeds: a load's
/// extended value becomes the pending register write, overriding any the
/// instruction carried; a store carries none; every other instruction
/// passes its pending write through.
pub open spec fn memory_stage_output_spec(input: MemoryAccessInput, bytes: Seq<u8>) -> WriteBackInput {
    WriteBackInput {
        fetch_result: input.fetch_result,
        decoded_instruction: input.decoded_instruction,
        operation: match input.decoded_instruction {
            Instruction::MemoryLoad(instr) => Some(
                RegisterWrite {
                    index: load_i_type(instr).register_destination_index,
                    value: load_value_spec(
                        instr,
                        le_value(bytes, load_address(instr), load_width(instr)),
                    ),
                },
            ),
            Instruction::MemoryStore(_) => None,
            _ => input.operation,
        },
    }
}

/// The store bytes after the memory stage succeeds: only a store changes
/// them, and only at its effective address.
pub open spec fn memory_stage_contents_spec(input: MemoryAccessInput, bytes: Seq<u8>) -> Seq<u8> {
    match input.decoded_instruction {
        Instruction::MemoryStore(instr) => le_store(
            bytes,
            store_address(instr),
            store_value(instr),
            store_width(instr),
        ),
        _ => bytes,
    }
}

/// The decode stage as a function: the decoded instruction joins the
/// latch, and a word that does not decode is the step's fault.
pub open spec fn decode_stage_spec(input: DecodedInput, registers: Seq<u32>) -> Result<
    AluInput,
    Fault,
> {
    match decode_spec(input.fetch_result, registers) {
        Ok(decoded_instruction) => Ok(
            AluInput { fetch_result: input.fetch_result, decoded_instruction },
        ),
        Err(DecodeError::BadInstruction { address, instruction }) => Err(
            Fault::BadInstruction { address, instruction },
        ),
    }
}

/// The execute stage as a function: an ALU instruction produces its
/// pending register write, every other instruction produces none yet.
pub open spec fn execute_stage_spec(input: AluInput) -> MemoryAccessInput {
    MemoryAccessInput {
        fetch_result: input.fetch_result,
        decoded_instruction: input.decoded_instruction,
        operation: match input.decoded_instruction {
            Instruction::Alu(instr) => Some(alu_spec(input.fetch_result, instr)),
            _ => None,
        },
    }
}

/// The early branch check as a function: the newly decoded instruction's
/// control-transfer decision, `None` for every non-branching instruction.
pub open spec fn will_branch_spec(input: AluInput) -> Option<u32> {
    match input.decoded_instruction {
        Instruction::Branching(instr) => branch_spec(input.fetch_result, instr),
        _ => None,
    }
}

/// The fault one step surfaces, if any, in the order the stages run:
/// a failed fetch first, then a word that does not decode, then a failed
/// load or store.
pub open spec fn step_fault_spec<M: BusInterface>(
    state: SimplePipeline,
    pc: u32,
    registers: Seq<u32>,
    memory: M,
) -> Option<Fault> {
    let retired = retire_spec(state, registers);
    match read_fault_kind(memory.read_response(pc, BusWidth::Word)) {
        Some(kind) => Some(Fault::FetchFault { address: pc, kind }),
        None => match state.decode_input {
            Some(input) => match decode_stage_spec(input, retired) {
                Err(fault) => Some(fault),
                Ok(_) => step_memory_fault_spec(state, memory),
            },
            None => step_memory_fault_spec(state, memory),
        },
    }
}

/// The fault the memory stage surfaces, if any: a failed load or store
/// access, named by its effective address and the bus's answer.
pub open spec fn step_memory_fault_spec<M: BusInterface>(state: SimplePipeline, memory: M) -> Option<
    Fault,
> {
    match state.memory_access_input {
        Some(input) => match input.decoded_instruction {
            Instruction::MemoryLoad(instr) => match read_fault_kind(
                memory.read_response(load_address(instr), load_width(instr)),
            ) {
                Some(kind) => Some(Fault::LoadFault { address: load_address(instr), kind }),
                None => None,
            },
            Instruction::MemoryStore(instr) => match write_fault_kind(
                memory.write_response(store_address(instr), store_value(instr), store_width(instr)),
            ) {
                Some(kind) => Some(Fault::StoreFault { address: store_address(instr), kind }),
                None => None,
            },
            _ => None,
        },
        None => None,
    }
}

/// The raw value a successful bus read carries; meaningful only where the
/// response is known to be a success.
pub open spec fn bus_read_value(response: BusReadResponse) -> u32 {
    match response {
        BusReadResponse::Success(value) => value,
        _ => 0,
    }
}

/// The latch state after one fault-free step: every occupied latch moves
/// one stage forward, the fetched word enters the decode latch, and a
/// taken branch squashes the two youngest latches.
pub open spec fn step_state_spec<M: BusInterface>(
    state: SimplePipeline,
    pc: u32,
    registers: Seq<u32>,
    memory: M,
) -> SimplePipeline {
    let retired = retire_spec(state, registers);
    let word = bus_read_value(memory.read_response(pc, BusWidth::Word));
    let next_decode_input = Some(
        DecodedInput { fetch_result: FetchResult { captured_pc: pc, instruction: word } },
    );
    let next_execute_input = match state.decode_input {
        Some(input) => match decode_stage_spec(input, retired) {
            Ok(alu_input) => Some(alu_input),
            Err(_) => None,
        },
        None => None,
    };
    let next_memory_access_input = match state.execute_input {
        Some(input) => Some(execute_stage_spec(input)),
        None => None,
    };
    let next_write_back_input = match state.memory_access_input {
        Some(input) => Some(memory_stage_output_spec(input, memory.contents())),
        None => None,
    };
    let branch_target = match next_execute_input {
        Some(input) => will_branch_spec(input),
        None => None,
    };
    match branch_target {
        Some(_) => SimplePipeline {
            decode_input: None,
            execute_input: None,
            memory_access_input: next_memory_access_input,
            write_back_input: next_write_back_input,
        },
        None => SimplePipeline {
            decode_input: next_decode_input,
            execute_input: next_execute_input,
            memory_access_input: next_memory_access_input,
            write_back_input: next_write_back_input,
        },
    }
}

/// The program counter after one fault-free step: the newly decoded
/// instruction's branch target if it takes one, else the next sequential
/// word.
pub open spec fn step_pc_spec<M: BusInterface>(
    state: SimplePipeline,
    pc: u32,
    registers: Seq<u32>,
    memory: M,
) -> u32 {
    let retired = retire_spec(state, registers);
    let next_execute_input = match state.decode_input {
        Some(input) => match decode_stage_spec(input, retired) {
            Ok(alu_input) => Some(alu_input),
            Err(_) => None,
        },
        None => None,
    };
    let branch_target = match next_execute_input {
        Some(input) => will_branch_spec(input),
        None => None,
    };
    match branch_target {
        Some(jump_to_address) => jump_to_address,
        None => pc.wrapping_add(4),
    }
}

/// The store bytes after one fault-free step: changed only by a store in
/// the memory stage.
pub open spec fn step_contents_spec<M: BusInterface>(state: SimplePipeline, memory: M) -> Seq<
    u8,
> {
    match state.memory_access_input {
        Some(input) => memory_stage_contents_spec(input, memory.contents()),
        None => memory.contents(),
    }
}

/// Everything decode hands the pipeline targets one of the 32 registers.
pub proof fn lemma_decode_destination_in_range(fetch_result: FetchResult, registers: Seq<u32>)
    ensures
        (decode_spec(fetch_result, registers) matches Ok(instruction) ==> destination_in_range(
            instruction,
        )),
{
    lemma_register_index_bounds(fetch_result.instruction);
}

impl<M: BusInterface> Pipeline<M> for SimplePipeline {
    open spec fn wf(&self) -> bool {
        wf_spec(*self)
    }

    open spec fn initial(&self) -> bool {
        self.decode_input is None && self.execute_input is None && self.memory_access_input
            is None && self.write_back_input is None
    }

    open spec fn step_fault(&self, pc: u32, registers: Seq<u32>, memory: M) -> Option<Fault> {
        step_fault_spec(*self, pc, registers, memory)
    }

    open spec fn step_state(&self, pc: u32, registers: Seq<u32>, memory: M) -> SimplePipeline {
        step_state_spec(*self, pc, registers, memory)
    }

    open spec fn step_pc(&self, pc: u32, registers: Seq<u32>, memory: M) -> u32 {
        step_pc_spec(*self, pc, registers, memory)
    }

    open spec fn step_registers(&self, registers: Seq<u32>) -> Seq<u32> {
        retire_spec(*self, registers)
    }

    open spec fn step_contents(&self, memory: M) -> Seq<u8> {
        step_contents_spec(*self, memory)
    }

    fn new() -> (pipeline: SimplePipeline) {
        SimplePipeline {
            decode_input: None,
            execute_input: None,
            memory_access_input: None,
            write_back_input: None,
        }
    }

    fn execute(&mut self, pc: u32, register_file: &mut RegisterFile, memory: &mut M) -> (result:
        Result<u32, Fault>) {
        // Retire: last cycle's pending write lands before anything else
        // reads the register file this cycle.
        if let Some(input) = self.write_back_input {
            if let Some(operation) = input.operation {
                write_back(operation, register_file);
            }
        }

        // Fetch reads the store before any store this cycle lands.
        let next_decode_input = match fetch_instruction(pc, memory) {
            Ok(fetch_result) => DecodedInput { fetch_result },
            Err(fault) => {
                return Err(fault);
            },
        };

        // Decode reads the register file after retirement: write-back and
        // a same-cycle register read are ordered write-before-read.
        let next_execute_input = match self.decode_input {
            Some(input) => match decode_stage(input, register_file) {
                Ok(alu_input) => Some(alu_input),
                Err(fault) => {
                    return Err(fault);
                },
            },
            None => None,
        };

        let next_memory_access_input = match self.execute_input {
            Some(input) => Some(execute_stage(input)),
            None => None,
        };

        let next_write_back_input = match self.memory_access_input {
            Some(input) => match memory_stage(input, memory) {
                Ok(write_back_input) => Some(write_back_input),
                Err(fault) => {
                    return Err(fault);
                },
            },
            None => None,
        };

        self.decode_input = Some(next_decode_input);
        self.execute_input = next_execute_input;
        self.memory_access_input = next_memory_access_input;
        self.write_back_input = next_write_back_input;

        // Early branch resolution, in the same clock as the decode: a
        // taken branch squashes the word just fetched and the branch
        // itself, whose whole effect is the new program counter.
        let branch_target = match next_execute_input {
            Some(input) => will_branch(input),
            None => None,
        };
        match branch_target {
            Some(jump_to_address) => {
                self.decode_input = None;
                self.execute_input = None;
                Ok(jump_to_address)
            },
            None => Ok(pc.wrapping_add(4)),
        }
    }
}

/// Decodes the latched word against the post-retirement register file; a
/// word that does not decode becomes the step's fault.
fn decode_stage(decoded_input: DecodedInput, register_file: &RegisterFile) -> (result: Result<
    AluInput,
    Fault,
>)
    requires
        register_file@.len() == 32,
    ensures
        result == decode_stage_spec(decoded_input, register_file@),
        (result matches Ok(alu_input) ==> destination_in_range(alu_input.decoded_instruction)),
{
    proof {
        lemma_decode_destination_in_range(decoded_input.fetch_result, register_file@);
    }
    match decode_instruction(decoded_input.fetch_result, register_file) {
        Ok(decoded_instruction) => Ok(
            AluInput { fetch_result: decoded_input.fetch_result, decoded_instruction },
        ),
        Err(DecodeError::BadInstruction { address, instruction }) => Err(
            Fault::BadInstruction { address, instruction },
        ),
    }
}

/// Runs the ALU on an ALU instruction; every other instruction passes
/// through with no pending write yet.
fn execute_stage(input: AluInput) -> (output: MemoryAccessInput)
    ensures
        output == execute_stage_spec(input),
{
    MemoryAccessInput {
        fetch_result: input.fetch_result,
        decoded_instruction: input.decoded_instruction,
        operation: match input.decoded_instruction {
            Instruction::Alu(instr) => Some(execute(input.fetch_result, instr)),
            _ => None,
        },
    }
}

/// Resolves the newly decoded instruction's control transfer, if it is
/// one.
fn will_branch(input: AluInput) -> (target: Option<u32>)
    ensures
        target == will_branch_spec(input),
{
    match input.decoded_instruction {
        Instruction::Branching(instr) => branch(input.fetch_result, instr),
        _ => None,
    }
}

/// Runs the load/store unit: a load's value overrides any carried
/// register write, a store performs its bus write and carries none, and
/// every other instruction passes its pending write through. A failed
/// access becomes the step's fault and leaves the store unchanged.
fn memory_stage<M: BusInterface>(input: MemoryAccessInput, memory: &mut M) -> (result: Result<
    WriteBackInput,
    Fault,
>)
    ensures
        (match result {
            Ok(write_back_input) => write_back_input == memory_stage_output_spec(
                input,
                old(memory).contents(),
            ) && final(memory).contents() == memory_stage_contents_spec(
                input,
                old(memory).contents(),
            ) && (match input.decoded_instruction {
                Instruction::MemoryLoad(instr) => read_fault_kind(
                    old(memory).read_response(
                        load_address(instr),
                        load_width(instr),
                    ),
                ) is None,
                Instruction::MemoryStore(instr) => write_fault_kind(
                    old(memory).write_response(
                        store_address(instr),
                        store_value(instr),
                        store_width(instr),
                    ),
                ) is None,
                _ => true,
            }),
            Err(fault) => final(memory).contents() == old(memory).contents() && (match input
                .decoded_instruction {
                Instruction::MemoryLoad(instr) => (match read_fault_kind(
                    old(memory).read_response(
                        load_address(instr),
                        load_width(instr),
                    ),
                ) {
                    Some(kind) => fault == (Fault::LoadFault {
                        address: load_address(instr),
                        kind,
                    }),
                    None => false,
                }),
                Instruction::MemoryStore(instr) => (match write_fault_kind(
                    old(memory).write_response(
                        store_address(instr),
                        store_value(instr),
                        store_width(instr),
                    ),
                ) {
                    Some(kind) => fault == (Fault::StoreFault {
                        address: store_address(instr),
                        kind,
                    }),
                    None => false,
                }),
                _ => false,
            }),
        }),
{
    match input.decoded_instruction {
        Instruction::MemoryLoad(instr) => match load(instr, memory) {
            Ok(operation) => Ok(
                WriteBackInput {
                    fetch_result: input.fetch_result,
                    decoded_instruction: input.decoded_instruction,
                    operation: Some(operation),
                },
            ),
            Err(fault) => Err(fault),
        },
        Instruction::MemoryStore(instr) => match store(instr, memory) {
            Ok(_) => Ok(
                WriteBackInput {
                    fetch_result: input.fetch_result,
                    decoded_instruction: input.decoded_instruction,
                    operation: None,
                },
            ),
            Err(fault) => Err(fault),
        },
        _ => Ok(
            WriteBackInput {
                fetch_result: input.fetch_result,
                decoded_instruction: input.decoded_instruction,
                operation: input.operation,
            },
        ),
    }
}

} // verus!
