//! Addresses inside the game module, the byte images of values, and the
//! memory writes that the patch performs.
use vstd::prelude::*;
use crate::utils::traits::ToBytes;

pub mod address;
pub mod patchers;
pub mod traits;

verus! {

/// One write into the game's memory: `bytes` copied to `address`.
pub struct MemoryWrite {
    pub address: usize,
    pub bytes: Vec<u8>,
}

impl View for MemoryWrite {
    type V = (usize, Seq<u8>);

    open spec fn view(&self) -> (usize, Seq<u8>) {
        (self.address, self.bytes@)
    }
}

/// The write that stores `value` at `addr`: its little-endian bytes, as many
/// as the type is wide.
pub fn write_value<T: ToBytes>(addr: usize, value: T) -> (write: MemoryWrite)
    ensures
        write@ == (addr, T::spec_le_bytes(value)),
        write.bytes@.len() == T::spec_width(),
{
    let bytes = T::to_le_bytes(value);
    MemoryWrite { address: addr, bytes }
}

} // verus!
