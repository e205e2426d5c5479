use crate::register_file::{write_spec, RegisterFile};
use crate::unit::RegisterWrite;
use vstd::prelude::*;

verus! {

/// Applies one pending register write to the register file. Idempotent:
/// applying the same write twice leaves the registers as one application
/// does; a write to register 0 has no observable effect.
pub fn write_back(operation: RegisterWrite, register_file: &mut RegisterFile)
    requires
        operation.index < old(register_file)@.len(),
    ensures
        final(register_file)@ == write_spec(
            old(register_file)@,
            operation.index as int,
            operation.value,
        ),
{
    register_file.write(operation.index as usize, operation.value);
}

} // verus!
