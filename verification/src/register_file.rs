use vstd::prelude::*;

verus! {

/// The general-purpose register file.
///
/// Register 0 is hardwired to zero: writes to it are accepted but have no
/// observable effect, and reads of it always yield 0. The view of a
/// `RegisterFile` is the sequence of observable register values, so the
/// view's entry 0 is always 0.
pub struct RegisterFile {
    registers: Vec<u32>,
}

/// The observable effect of a register write: writes to register 0 are
/// discarded, every other register takes the new value.
pub open spec fn write_spec(registers: Seq<u32>, index: int, value: u32) -> Seq<u32> {
    if index == 0 {
        registers
    } else {
        registers.update(index, value)
    }
}

impl View for RegisterFile {
    type V = Seq<u32>;

    closed spec fn view(&self) -> Seq<u32> {
        Seq::new(
            self.registers@.len(),
            |i: int| if i == 0 { 0u32 } else { self.registers@[i] },
        )
    }
}

impl RegisterFile {
    /// Creates a register file of `size` registers, all reading as zero.
    pub fn new(size: usize) -> (register_file: RegisterFile)
        ensures
            register_file@ == Seq::new(size as nat, |i: int| 0u32),
    {
        let mut registers: Vec<u32> = Vec::new();
        while registers.len() < size
            invariant
                registers.len() <= size,
                forall|i: int| 0 <= i < registers@.len() ==> registers@[i] == 0u32,
            decreases size - registers.len(),
        {
            registers.push(0);
        }
        let register_file = RegisterFile { registers };
        proof {
            assert(register_file@ =~= Seq::new(size as nat, |i: int| 0u32));
        }
        register_file
    }

    /// Stores `value` in register `register_number`. A write to register 0
    /// is accepted but does not change any observable register value.
    pub fn write(&mut self, register_number: usize, value: u32)
        requires
            register_number < old(self)@.len(),
        ensures
            final(self)@ == write_spec(old(self)@, register_number as int, value),
    {
        self.registers.set(register_number, value);
        proof {
            assert(self@ =~= write_spec(old(self)@, register_number as int, value));
        }
    }

    /// Reads register `register_number`; register 0 always yields 0.
    pub fn read(&self, register_number: usize) -> (value: u32)
        requires
            register_number < self@.len(),
        ensures
            value == self@[register_number as int],
    {
        if register_number != 0 {
            self.registers[register_number]
        } else {
            0
        }
    }

    /// Every reachable register file reads register 0 as zero.
    pub proof fn lemma_register_zero_reads_zero(&self)
        ensures
            self@.len() > 0 ==> self@[0] == 0,
    {
    }
}

/// Law: writing any value to register 0 leaves every observable register
/// value unchanged, so a following read of register 0 still yields 0.
pub proof fn lemma_register_zero_invariant(register_file: RegisterFile, v: u32)
    requires
        0 < register_file@.len(),
    ensures
        write_spec(register_file@, 0, v) == register_file@,
        write_spec(register_file@, 0, v)[0] == 0,
{
    register_file.lemma_register_zero_reads_zero();
}

/// Law: writing the same `(index, value)` twice leaves the registers exactly
/// as one write does, and (for any register other than the hardwired zero
/// register) a following read of `index` yields `value`.
pub proof fn lemma_write_idempotent(registers: Seq<u32>, index: int, value: u32)
    requires
        0 <= index < registers.len(),
    ensures
        write_spec(write_spec(registers, index, value), index, value)
            == write_spec(registers, index, value),
        index != 0 ==> write_spec(registers, index, value)[index] == value,
{
    assert(write_spec(write_spec(registers, index, value), index, value)
        =~= write_spec(registers, index, value));
}

} // verus!
