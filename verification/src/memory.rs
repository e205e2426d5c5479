use crate::bus::{
    access_in_bounds, le_store, le_value, BusInterface, BusReadResponse, BusWidth,
    BusWriteResponse,
};
use vstd::prelude::*;

verus! {

/// A flat, byte-addressed, little-endian backing store satisfying the bus
/// contract: every access that lies inside the store succeeds, every
/// access that reaches past its end is reported out of bounds, and no
/// access is deferred or rejected for any other reason.
pub struct Memory {
    bytes: Vec<u8>,
}

impl Memory {
    /// Creates a zero-filled store of `size` bytes.
    pub fn new(size: usize) -> (memory: Memory)
        ensures
            memory.contents() == Seq::new(size as nat, |i: int| 0u8),
    {
        let mut bytes: Vec<u8> = Vec::new();
        while bytes.len() < size
            invariant
                bytes.len() <= size,
                forall|i: int| 0 <= i < bytes@.len() ==> bytes@[i] == 0u8,
            decreases size - bytes.len(),
        {
            bytes.push(0);
        }
        let memory = Memory { bytes };
        proof {
            assert(memory.contents() =~= Seq::new(size as nat, |i: int| 0u8));
        }
        memory
    }

    /// Creates a store holding exactly `initial_values`.
    pub fn with_initial_values(initial_values: Vec<u8>) -> (memory: Memory)
        ensures
            memory.contents() == initial_values@,
    {
        Memory { bytes: initial_values }
    }
}

impl BusInterface for Memory {
    closed spec fn contents(&self) -> Seq<u8> {
        self.bytes@
    }

    /// An in-bounds read succeeds with the addressed bytes' little-endian
    /// value; any other read is out of bounds.
    open spec fn read_response(&self, address: u32, width: BusWidth) -> BusReadResponse {
        if access_in_bounds(address, width, self.contents().len()) {
            BusReadResponse::Success(le_value(self.contents(), address, width))
        } else {
            BusReadResponse::ReadOutOfBounds
        }
    }

    /// An in-bounds write succeeds; any other write is out of bounds.
    open spec fn write_response(&self, address: u32, value: u32, width: BusWidth) -> BusWriteResponse {
        if access_in_bounds(address, width, self.contents().len()) {
            BusWriteResponse::Success
        } else {
            BusWriteResponse::WriteOutOfBounds
        }
    }

    fn read(&self, address: u32, width: BusWidth) -> (response: BusReadResponse) {
        let count: usize = match width {
            BusWidth::Byte => 1,
            BusWidth::HalfWord => 2,
            BusWidth::Word => 4,
        };
        let start = address as usize;
        if self.bytes.len() < count || start > self.bytes.len() - count {
            return BusReadResponse::ReadOutOfBounds;
        }
        match width {
            BusWidth::Byte => BusReadResponse::Success(self.bytes[start] as u32),
            BusWidth::HalfWord => BusReadResponse::Success(
                (self.bytes[start] as u32) | (self.bytes[start + 1] as u32) << 8u32,
            ),
            BusWidth::Word => BusReadResponse::Success(
                (self.bytes[start] as u32) | (self.bytes[start + 1] as u32) << 8u32 | (
                self.bytes[start + 2] as u32) << 16u32 | (self.bytes[start + 3] as u32) << 24u32,
            ),
        }
    }

    fn write(&mut self, address: u32, value: u32, width: BusWidth) -> (response: BusWriteResponse) {
        let count: usize = match width {
            BusWidth::Byte => 1,
            BusWidth::HalfWord => 2,
            BusWidth::Word => 4,
        };
        let start = address as usize;
        if self.bytes.len() < count || start > self.bytes.len() - count {
            return BusWriteResponse::WriteOutOfBounds;
        }
        match width {
            BusWidth::Byte => {
                self.bytes.set(start, (value & 0xff) as u8);
            },
            BusWidth::HalfWord => {
                self.bytes.set(start, (value & 0xff) as u8);
                self.bytes.set(start + 1, ((value >> 8u32) & 0xff) as u8);
            },
            BusWidth::Word => {
                self.bytes.set(start, (value & 0xff) as u8);
                self.bytes.set(start + 1, ((value >> 8u32) & 0xff) as u8);
                self.bytes.set(start + 2, ((value >> 16u32) & 0xff) as u8);
                self.bytes.set(start + 3, ((value >> 24u32) & 0xff) as u8);
            },
        }
        BusWriteResponse::Success
    }
}

} // verus!
