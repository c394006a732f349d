//! Larger memory pools and string pools, so that heavily modded data fits.
use vstd::prelude::*;
use crate::hooks::{can_patch, hook_step, install_hook, steps, Hook, PatchAction, PatchStep, HIGHEST_OFFSET};
use crate::utils::address::{addr, AddressSpace};
use crate::utils::patchers::patch_string_pool_size;
use crate::utils::traits::{le_bytes, ToBytes};
use crate::utils::write_value;

verus! {

/// The memory pools whose sizes are raised: each entry is the offset of the
/// size operand and the new size (each twice the game's own).
pub open spec fn memory_pool_table() -> Seq<(usize, u32)> {
    seq![
        (0x1D8660, 26738688),
        (0x1D8E36, 31457280),
        (0x54F35A, 11534336),
        (0x54F3A3, 161470464),
        (0x1D8F17, 268435456),
        (0x1D8F2C, 268435456)
    ]
}

/// The string pools whose sizes are raised: each entry is the offsets of the
/// two size operands and the new size.
pub open spec fn string_pool_table() -> Seq<(usize, usize, u32)> {
    seq![
        (0x390D3C, 0x390D6F, 4096),
        (0x39624A, 0x39627D, 2048),
        (0x399E3E, 0x399E73, 2048),
        (0x39A620, 0x39A651, 1024),
        (0x39B10B, 0x39B13E, 2048),
        (0x39EDD6, 0x39EDF4, 6144),
        (0x3A0C6C, 0x3A0C9F, 1792),
        (0x3A2D5E, 0x3A2D8F, 4096),
        (0x3A573C, 0x3A576C, 12288),
        (0x3B375C, 0x3B378F, 2560),
        (0x3B514C, 0x3B517F, 2900),
        (0x3D3A09, 0x3D3A3C, 61440),
        (0x47715C, 0x47718F, 10000),
        (0x4B703D, 0x4B7072, 20000),
        (0x4EB766, 0x4EB797, 12288),
        (0x4EBE4F, 0x4EBE80, 12288),
        (0x509664, 0x5096A1, 262144),
        (0x5A354E, 0x5A355A, 12288),
        (0x5DCFFD, 0x5DD00C, 2800),
        (0x5FCE58, 0x5FCE67, 2800),
        (0x5DF0A3, 0x5DF0C5, 2048),
        (0x6609AF, 0x6609E2, 1024),
        (0x67ABDE, 0x67ABF9, 45056),
        (0x68E551, 0x68E582, 1024),
        (0x68EEEB, 0x68EF1C, 1024),
        (0x6A4295, 0x6A42C8, 6144),
        (0x6A6988, 0x6A69B8, 4096),
        (0x6A7068, 0x6A7098, 1024),
        (0x6AB0AC, 0x6AB0C5, 1024),
        (0x6BCCC5, 0x6BCCF2, 12400),
        (0x7548B0, 0x7548E1, 2048),
        (0x75C83C, 0x75C86F, 1024),
        (0x75F8AC, 0x75F8DF, 7168),
        (0x768B0C, 0x768B3F, 1024),
        (0x782404, 0x78242A, 16384),
        (0x7ACE82, 0x7ACEAF, 16384),
        (0x7AFE93, 0x7AFEC3, 16384)
    ]
}

fn memory_pool_entries() -> (entries: Vec<(usize, u32)>)
    ensures
        entries@ == memory_pool_table(),
{
    let entries = vec![
        (0x1D8660, 26738688),
        (0x1D8E36, 31457280),
        (0x54F35A, 11534336),
        (0x54F3A3, 161470464),
        (0x1D8F17, 268435456),
        (0x1D8F2C, 268435456)
    ];
    assert(entries@ =~= memory_pool_table());
    entries
}

fn string_pool_entries() -> (entries: Vec<(usize, usize, u32)>)
    ensures
        entries@ == string_pool_table(),
{
    let entries = vec![
        (0x390D3C, 0x390D6F, 4096),
        (0x39624A, 0x39627D, 2048),
        (0x399E3E, 0x399E73, 2048),
        (0x39A620, 0x39A651, 1024),
        (0x39B10B, 0x39B13E, 2048),
        (0x39EDD6, 0x39EDF4, 6144),
        (0x3A0C6C, 0x3A0C9F, 1792),
        (0x3A2D5E, 0x3A2D8F, 4096),
        (0x3A573C, 0x3A576C, 12288),
        (0x3B375C, 0x3B378F, 2560),
        (0x3B514C, 0x3B517F, 2900),
        (0x3D3A09, 0x3D3A3C, 61440),
        (0x47715C, 0x47718F, 10000),
        (0x4B703D, 0x4B7072, 20000),
        (0x4EB766, 0x4EB797, 12288),
        (0x4EBE4F, 0x4EBE80, 12288),
        (0x509664, 0x5096A1, 262144),
        (0x5A354E, 0x5A355A, 12288),
        (0x5DCFFD, 0x5DD00C, 2800),
        (0x5FCE58, 0x5FCE67, 2800),
        (0x5DF0A3, 0x5DF0C5, 2048),
        (0x6609AF, 0x6609E2, 1024),
        (0x67ABDE, 0x67ABF9, 45056),
        (0x68E551, 0x68E582, 1024),
        (0x68EEEB, 0x68EF1C, 1024),
        (0x6A4295, 0x6A42C8, 6144),
        (0x6A6988, 0x6A69B8, 4096),
        (0x6A7068, 0x6A7098, 1024),
        (0x6AB0AC, 0x6AB0C5, 1024),
        (0x6BCCC5, 0x6BCCF2, 12400),
        (0x7548B0, 0x7548E1, 2048),
        (0x75C83C, 0x75C86F, 1024),
        (0x75F8AC, 0x75F8DF, 7168),
        (0x768B0C, 0x768B3F, 1024),
        (0x782404, 0x78242A, 16384),
        (0x7ACE82, 0x7ACEAF, 16384),
        (0x7AFE93, 0x7AFEC3, 16384)
    ];
    assert(entries@ =~= string_pool_table());
    entries
}

/// The memory pools that the patch raises, as documented beside each write:
/// the offset of the size operand and the game's own (vanilla) size.
/// In order: Common_page_pool, Permanent_mempool, MP_effect_preload_mempool,
/// MP_item_preload_mempool, and the two operands of Item_preload_pool.
pub open spec fn documented_memory_pools() -> Seq<(nat, nat)> {
    seq![
        (0x1D8660nat, 13369344nat),
        (0x1D8E36nat, 15728640nat),
        (0x54F35Anat, 5767168nat),
        (0x54F3A3nat, 80735232nat),
        (0x1D8F17nat, 134217728nat),
        (0x1D8F2Cnat, 134217728nat),
    ]
}

/// Every memory pool write of the limit raises stores twice the game's own
/// size of that pool, at that pool's operand, in the documented order.
pub proof fn lemma_memory_pools_doubled(base: nat)
    ensures
        memory_pool_writes(base).len() == documented_memory_pools().len(),
        forall|i: int|
            0 <= i < documented_memory_pools().len() ==> #[trigger] memory_pool_writes(base)[i]
                == PatchStep::Write(
                base + documented_memory_pools()[i].0,
                le_bytes(2 * documented_memory_pools()[i].1, 4),
            ),
{
    assert forall|i: int| 0 <= i < documented_memory_pools().len() implies #[trigger] memory_pool_writes(
        base,
    )[i] == PatchStep::Write(
        base + documented_memory_pools()[i].0,
        le_bytes(2 * documented_memory_pools()[i].1, 4),
    ) by {
        assert(memory_pool_table()[i].0 as nat == documented_memory_pools()[i].0);
        assert(memory_pool_table()[i].1 as nat == 2 * documented_memory_pools()[i].1);
    }
}

/// The string pools that the patch raises, as documented beside each
/// write: the offsets of the two size operands, the game's own (vanilla)
/// size and the new size. Tool_tips, Multi_game_character and Vehicle_info
/// each have two pairs of operands.
pub open spec fn documented_string_pools() -> Seq<(nat, nat, nat, nat)> {
    seq![
        (0x390D3C, 0x390D6F, 2048, 4096),
        (0x39624A, 0x39627D, 1024, 2048),
        (0x399E3E, 0x399E73, 512, 2048),
        (0x39A620, 0x39A651, 512, 1024),
        (0x39B10B, 0x39B13E, 1024, 2048),
        (0x39EDD6, 0x39EDF4, 3072, 6144),
        (0x3A0C6C, 0x3A0C9F, 896, 1792),
        (0x3A2D5E, 0x3A2D8F, 2048, 4096),
        (0x3A573C, 0x3A576C, 6144, 12288),
        (0x3B375C, 0x3B378F, 2560, 2560),
        (0x3B514C, 0x3B517F, 1450, 2900),
        (0x3D3A09, 0x3D3A3C, 30720, 61440),
        (0x47715C, 0x47718F, 5000, 10000),
        (0x4B703D, 0x4B7072, 10000, 20000),
        (0x4EB766, 0x4EB797, 6144, 12288),
        (0x4EBE4F, 0x4EBE80, 6144, 12288),
        (0x509664, 0x5096A1, 131072, 262144),
        (0x5A354E, 0x5A355A, 6144, 12288),
        (0x5DCFFD, 0x5DD00C, 1400, 2800),
        (0x5FCE58, 0x5FCE67, 1400, 2800),
        (0x5DF0A3, 0x5DF0C5, 1024, 2048),
        (0x6609AF, 0x6609E2, 512, 1024),
        (0x67ABDE, 0x67ABF9, 22528, 45056),
        (0x68E551, 0x68E582, 512, 1024),
        (0x68EEEB, 0x68EF1C, 512, 1024),
        (0x6A4295, 0x6A42C8, 3072, 6144),
        (0x6A6988, 0x6A69B8, 2048, 4096),
        (0x6A7068, 0x6A7098, 512, 1024),
        (0x6AB0AC, 0x6AB0C5, 512, 1024),
        (0x6BCCC5, 0x6BCCF2, 6200, 12400),
        (0x7548B0, 0x7548E1, 1024, 2048),
        (0x75C83C, 0x75C86F, 512, 1024),
        (0x75F8AC, 0x75F8DF, 3584, 7168),
        (0x768B0C, 0x768B3F, 512, 1024),
        (0x782404, 0x78242A, 8192, 16384),
        (0x7ACE82, 0x7ACEAF, 8192, 16384),
        (0x7AFE93, 0x7AFEC3, 8192, 16384)
    ]
}

/// The position, among the documented string pools, of
/// Activity_data_name_string_pool, whose size is rewritten unchanged.
pub open spec fn activity_data_name_pool() -> int {
    9
}

/// Every string pool gets its documented new size, written into both of its
/// operands, the first one first; and no pool shrinks: each new size is
/// larger than the game's own, except Activity_data_name_string_pool, which
/// keeps its size.
pub proof fn lemma_string_pools_documented(base: nat)
    ensures
        string_pool_writes(base).len() == 2 * documented_string_pools().len(),
        forall|k: int|
            0 <= k < documented_string_pools().len() ==> {
                let pool = #[trigger] documented_string_pools()[k];
                &&& string_pool_writes(base)[2 * k] == PatchStep::Write(base + pool.0, le_bytes(pool.3, 4))
                &&& string_pool_writes(base)[2 * k + 1] == PatchStep::Write(
                    base + pool.1,
                    le_bytes(pool.3, 4),
                )
                &&& pool.3 >= pool.2
                &&& k != activity_data_name_pool() ==> pool.3 > pool.2
            },
{
    assert forall|k: int| 0 <= k < documented_string_pools().len() implies {
        let pool = #[trigger] documented_string_pools()[k];
        &&& string_pool_writes(base)[2 * k] == PatchStep::Write(base + pool.0, le_bytes(pool.3, 4))
        &&& string_pool_writes(base)[2 * k + 1] == PatchStep::Write(base + pool.1, le_bytes(pool.3, 4))
        &&& pool.3 >= pool.2
        &&& k != activity_data_name_pool() ==> pool.3 > pool.2
    } by {
        let pool = documented_string_pools()[k];
        let entry = string_pool_table()[k];
        assert(entry.0 as nat == pool.0 && entry.1 as nat == pool.1 && entry.2 as nat == pool.3);
        assert((2 * k) / 2 == k && (2 * k) % 2 == 0 && (2 * k + 1) / 2 == k && (2 * k + 1) % 2 == 1);
    }
}

/// The writes that raise the memory pools of a module loaded at `base`, in
/// the order of the table.
pub open spec fn memory_pool_writes(base: nat) -> Seq<PatchStep> {
    Seq::new(
        memory_pool_table().len(),
        |i: int| PatchStep::Write(
            base + memory_pool_table()[i].0 as nat,
            <u32 as ToBytes>::spec_le_bytes(memory_pool_table()[i].1),
        ),
    )
}

/// The writes that raise the string pools of a module loaded at `base`: for
/// each pool of the table, its first operand, then its second.
pub open spec fn string_pool_writes(base: nat) -> Seq<PatchStep> {
    Seq::new(
        2 * string_pool_table().len(),
        |i: int|
            {
                let entry = string_pool_table()[i / 2];
                let offset = if i % 2 == 0 { entry.0 } else { entry.1 };
                PatchStep::Write(base + offset as nat, <u32 as ToBytes>::spec_le_bytes(entry.2))
            },
    )
}

/// The whole plan of the limit raises for a module loaded at `base`: the
/// memory layout detour, then the memory pools, then the string pools.
pub open spec fn limits_plan(base: nat) -> Seq<PatchStep> {
    seq![hook_step(base, Hook::GetMemoryLayoutDefinition)] + memory_pool_writes(base)
        + string_pool_writes(base)
}

fn patch_memory_pools(space: &AddressSpace) -> (plan: Vec<PatchAction>)
    requires
        can_patch(space),
    ensures
        steps(plan@) == memory_pool_writes(space@),
{
    let entries = memory_pool_entries();
    let mut plan: Vec<PatchAction> = Vec::new();
    let mut i: usize = 0;
    while i < entries.len()
        invariant
            can_patch(space),
            entries@ == memory_pool_table(),
            i <= entries@.len(),
            steps(plan@) =~= memory_pool_writes(space@).take(i as int),
        decreases entries@.len() - i,
    {
        let (offset, size) = entries[i];
        assert(offset <= HIGHEST_OFFSET);
        let action = PatchAction::Write(write_value::<u32>(addr(space, offset), size));
        assert(action@ == memory_pool_writes(space@)[i as int]);
        proof {
            crate::hooks::lemma_steps_push(plan@, action);
        }
        plan.push(action);
        assert(steps(plan@) =~= memory_pool_writes(space@).take(i + 1));
        i = i + 1;
    }
    plan
}

fn patch_string_pools(space: &AddressSpace) -> (plan: Vec<PatchAction>)
    requires
        can_patch(space),
    ensures
        steps(plan@) == string_pool_writes(space@),
{
    let entries = string_pool_entries();
    let mut plan: Vec<PatchAction> = Vec::new();
    let mut i: usize = 0;
    while i < entries.len()
        invariant
            can_patch(space),
            entries@ == string_pool_table(),
            i <= entries@.len(),
            steps(plan@) =~= string_pool_writes(space@).take(2 * i),
        decreases entries@.len() - i,
    {
        let (offset_1, offset_2, size) = entries[i];
        assert(offset_1 <= HIGHEST_OFFSET && offset_2 <= HIGHEST_OFFSET);
        let mut pair = patch_string_pool_size(addr(space, offset_1), addr(space, offset_2), size);
        let second = PatchAction::Write(pair.pop().unwrap());
        let first = PatchAction::Write(pair.pop().unwrap());
        let ghost w = string_pool_writes(space@);
        assert((2 * i) / 2 == i && (2 * i) % 2 == 0 && (2 * i + 1) / 2 == i && (2 * i + 1) % 2 == 1);
        assert(first@ == w[2 * i]);
        assert(second@ == w[2 * i + 1]);
        proof {
            crate::hooks::lemma_steps_push(plan@, first);
            crate::hooks::lemma_steps_push(plan@.push(first), second);
        }
        plan.push(first);
        plan.push(second);
        assert(steps(plan@) =~= w.take(2 * (i + 1)));
        i = i + 1;
    }
    plan
}

/// The size, in bytes, that the memory layout detour gives to the
/// "RFG_MempoolProvider" block (the game's own is 1,146,000,000).
pub const MEMPOOL_PROVIDER_SIZE: u32 = 1_346_000_000;

/// The index of the "RFG_MempoolProvider" block in the memory layout.
pub const MEMPOOL_PROVIDER_INDEX: usize = 2;

/// The memory layout detour's change to the block sizes, given in layout
/// order: the "RFG_MempoolProvider" block gets the larger size, the others
/// keep theirs.
pub fn enlarge_mempool_provider(sizes: &mut Vec<u32>)
    requires
        old(sizes)@.len() > MEMPOOL_PROVIDER_INDEX,
    ensures
        final(sizes)@ == old(sizes)@.update(MEMPOOL_PROVIDER_INDEX as int, MEMPOOL_PROVIDER_SIZE),
{
    sizes.set(MEMPOOL_PROVIDER_INDEX, MEMPOOL_PROVIDER_SIZE);
}

/// The number of bytes of the block table whose protection the detour lifts
/// while it writes: the number of blocks times the size of one definition.
pub fn block_table_size(block_count: u32, definition_size: usize) -> (size: usize)
    requires
        block_count * definition_size <= usize::MAX,
    ensures
        size == block_count * definition_size,
{
    block_count as usize * definition_size
}

/// Raises the game's memory limits: detours the memory layout query, then
/// writes the larger memory pool and string pool sizes.
pub fn apply(space: &AddressSpace) -> (plan: Vec<PatchAction>)
    requires
        can_patch(space),
    ensures
        steps(plan@) == limits_plan(space@),
{
    let mut plan: Vec<PatchAction> = Vec::new();
    plan.push(install_hook(space, Hook::GetMemoryLayoutDefinition));
    crate::hooks::append_plan(&mut plan, patch_memory_pools(space));
    crate::hooks::append_plan(&mut plan, patch_string_pools(space));
    plan
}

/// The memory layout detour raises the "RFG_MempoolProvider" block, the
/// third of the layout, from the game's 1,146,000,000 bytes to
/// 1,346,000,000.
pub proof fn lemma_mempool_provider_raised()
    ensures
        MEMPOOL_PROVIDER_INDEX == 2,
        MEMPOOL_PROVIDER_SIZE == 1_346_000_000,
        MEMPOOL_PROVIDER_SIZE > 1_146_000_000u32,
{
}

} // verus!
