//! The base address of the game module and the translation of offsets into
//! absolute addresses.
use vstd::prelude::*;

verus! {

/// Where the game's main module is loaded. Every patch location is given as
/// an offset from this base.
pub struct AddressSpace {
    base: usize,
}

impl View for AddressSpace {
    type V = nat;

    /// The module base as a number.
    open spec fn view(&self) -> nat {
        self.spec_base() as nat
    }
}

impl AddressSpace {
    /// The module base held by this address space.
    pub closed spec fn spec_base(&self) -> usize {
        self.base
    }

    /// An address space whose base has not been set yet, so it is zero.
    pub fn new() -> (space: AddressSpace)
        ensures
            space@ == 0,
    {
        AddressSpace { base: 0 }
    }

    /// Whether every offset up to `max_offset` can be translated without
    /// leaving the machine's address range.
    pub open spec fn reaches(&self, max_offset: nat) -> bool {
        self@ + max_offset <= usize::MAX
    }
}

/// Records the base address of the game module.
pub fn set_module_base(space: &mut AddressSpace, base: usize)
    ensures
        final(space)@ == base,
{
    space.base = base;
}

/// Returns the base address of the game module last recorded.
pub fn get_module_base(space: &AddressSpace) -> (base: usize)
    ensures
        base == space@,
{
    space.base
}

/// Translates an offset inside the game module into an absolute address:
/// the module base plus the offset.
pub fn addr(space: &AddressSpace, address: usize) -> (absolute: usize)
    requires
        space@ + address <= usize::MAX,
    ensures
        absolute == space@ + address,
{
    space.base + address
}

} // verus!
