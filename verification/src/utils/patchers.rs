//! Patterns of writes that recur in the game's code.
use vstd::prelude::*;
use crate::utils::{write_value, MemoryWrite};
use crate::utils::traits::ToBytes;

verus! {

/// A string pool's size is an immediate operand in two instructions of its
/// initialisation; both get the new size, the first one first.
pub fn patch_string_pool_size(addr_1: usize, addr_2: usize, size: u32) -> (writes: Vec<MemoryWrite>)
    ensures
        writes@.len() == 2,
        writes@[0]@ == (addr_1, <u32 as ToBytes>::spec_le_bytes(size)),
        writes@[1]@ == (addr_2, <u32 as ToBytes>::spec_le_bytes(size)),
{
    let mut writes: Vec<MemoryWrite> = Vec::new();
    writes.push(write_value(addr_1, size));
    writes.push(write_value(addr_2, size));
    writes
}

} // verus!
