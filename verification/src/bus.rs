use vstd::prelude::*;

verus! {

/// The width of one bus access. The core uses byte, half-word and word
/// accesses (8, 16 and 32 bits); signedness is not the bus's concern, the
/// load unit extends the raw value as its opcode demands.
#[derive(Clone, Copy, PartialEq, Eq, Structural, Debug)]
pub enum BusWidth {
    Byte,
    HalfWord,
    Word,
}

/// The outcome of one bus read. `Success` carries the raw little-endian
/// value of the addressed bytes, zero-extended to 32 bits.
#[derive(Clone, Copy, PartialEq, Eq, Structural, Debug)]
pub enum BusReadResponse {
    Success(u32),
    Deferred,
    InvalidAddress,
    ReadOutOfBounds,
}

/// The outcome of one bus write.
#[derive(Clone, Copy, PartialEq, Eq, Structural, Debug)]
pub enum BusWriteResponse {
    Success,
    Deferred,
    InvalidAddress,
    WriteOutOfBounds,
}

/// How many bytes one access of `width` addresses.
pub open spec fn width_bytes(width: BusWidth) -> int {
    match width {
        BusWidth::Byte => 1,
        BusWidth::HalfWord => 2,
        BusWidth::Word => 4,
    }
}

/// Whether an access of `width` starting at `address` lies entirely inside
/// a store of `size` bytes.
pub open spec fn access_in_bounds(address: u32, width: BusWidth, size: nat) -> bool {
    address + width_bytes(width) <= size
}

/// The little-endian value of the `width` bytes of `bytes` starting at
/// `address`, zero-extended to 32 bits.
pub open spec fn le_value(bytes: Seq<u8>, address: u32, width: BusWidth) -> u32 {
    let a = address as int;
    match width {
        BusWidth::Byte => bytes[a] as u32,
        BusWidth::HalfWord => (bytes[a] as u32) | (bytes[a + 1] as u32) << 8,
        BusWidth::Word => (bytes[a] as u32) | (bytes[a + 1] as u32) << 8 | (bytes[a + 2] as u32)
            << 16 | (bytes[a + 3] as u32) << 24,
    }
}

/// `bytes` with the low `width` bytes of `value` stored little-endian at
/// `address`.
pub open spec fn le_store(bytes: Seq<u8>, address: u32, value: u32, width: BusWidth) -> Seq<u8> {
    let a = address as int;
    match width {
        BusWidth::Byte => bytes.update(a, (value & 0xff) as u8),
        BusWidth::HalfWord => bytes.update(a, (value & 0xff) as u8).update(
            a + 1,
            ((value >> 8) & 0xff) as u8,
        ),
        BusWidth::Word => bytes.update(a, (value & 0xff) as u8).update(
            a + 1,
            ((value >> 8) & 0xff) as u8,
        ).update(a + 2, ((value >> 16) & 0xff) as u8).update(a + 3, ((value >> 24) & 0xff) as u8),
    }
}

/// The protocol any backing store must satisfy: byte-addressed, width-
/// parameterized reads and writes with explicit outcomes, little-endian
/// byte order.
///
/// A store answers `Success` only for an access that lies inside its
/// bounds, and then with exactly the addressed bytes (for a read) or with
/// exactly those bytes replaced (for a write). `ReadOutOfBounds` and
/// `WriteOutOfBounds` are answered only when the access range exceeds the
/// store's size. `InvalidAddress` is reserved for addresses a store rejects
/// independent of range, and `Deferred` for stores that cannot complete an
/// access synchronously; a store that fails an access leaves its bytes
/// unchanged.
pub trait BusInterface: Sized {
    /// The bytes the store currently holds.
    spec fn contents(&self) -> Seq<u8>;

    /// The response this store gives to a read of `width` at `address`.
    spec fn read_response(&self, address: u32, width: BusWidth) -> BusReadResponse;

    /// The response this store gives to a write of `value` with `width` at
    /// `address`.
    spec fn write_response(&self, address: u32, value: u32, width: BusWidth) -> BusWriteResponse;

    fn read(&self, address: u32, width: BusWidth) -> (response: BusReadResponse)
        ensures
            response == self.read_response(address, width),
            (match response {
                BusReadResponse::Success(value) => access_in_bounds(
                    address,
                    width,
                    self.contents().len(),
                ) && value == le_value(self.contents(), address, width),
                BusReadResponse::ReadOutOfBounds => !access_in_bounds(
                    address,
                    width,
                    self.contents().len(),
                ),
                _ => true,
            }),
    ;

    fn write(&mut self, address: u32, value: u32, width: BusWidth) -> (response: BusWriteResponse)
        ensures
            response == old(self).write_response(address, value, width),
            (match response {
                BusWriteResponse::Success => access_in_bounds(
                    address,
                    width,
                    old(self).contents().len(),
                ) && final(self).contents() == le_store(
                    old(self).contents(),
                    address,
                    value,
                    width,
                ),
                BusWriteResponse::WriteOutOfBounds => !access_in_bounds(
                    address,
                    width,
                    old(self).contents().len(),
                ) && final(self).contents() == old(self).contents(),
                _ => final(self).contents() == old(self).contents(),
            }),
    ;
}

} // verus!
