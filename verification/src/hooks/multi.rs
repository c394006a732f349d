//! Multiplayer menu changes.
use vstd::prelude::*;
use crate::hooks::{can_patch, steps, PatchAction, PatchStep};
use crate::utils::address::{addr, AddressSpace};
use crate::utils::traits::ToBytes;
use crate::utils::write_value;

verus! {

/// The writes of the multiplayer changes in a module loaded at `base`:
/// the "Matchmaking" and "Spectator" menu options are removed, and the match
/// countdown goes from ten seconds down to five (5000 ms).
pub open spec fn multi_plan(base: nat) -> Seq<PatchStep> {
    seq![
        PatchStep::Write(base + 0x12624B0nat, <i8 as ToBytes>::spec_le_bytes(0)),
        PatchStep::Write(base + 0x12624F0nat, <i8 as ToBytes>::spec_le_bytes(0)),
        PatchStep::Write(base + 0x5AAD8Dnat, <i32 as ToBytes>::spec_le_bytes(5000)),
    ]
}

/// The multiplayer changes.
pub fn apply(space: &AddressSpace) -> (plan: Vec<PatchAction>)
    requires
        can_patch(space),
    ensures
        steps(plan@) == multi_plan(space@),
{
    let mut plan: Vec<PatchAction> = Vec::new();
    plan.push(PatchAction::Write(write_value::<i8>(addr(space, 0x12624B0), 0)));
    plan.push(PatchAction::Write(write_value::<i8>(addr(space, 0x12624F0), 0)));
    plan.push(PatchAction::Write(write_value::<i32>(addr(space, 0x5AAD8D), 5000)));
    assert(steps(plan@) =~= multi_plan(space@));
    plan
}

/// The multiplayer changes write a zero byte over the "Matchmaking" option
/// at 0x12624B0 and over the "Spectator" option at 0x12624F0, then the
/// countdown of 5000 ms (bytes 0x88, 0x13, 0, 0) at 0x5AAD8D.
pub proof fn lemma_multi_writes(base: nat)
    ensures
        multi_plan(base) == seq![
            PatchStep::Write(base + 0x12624B0nat, seq![0u8]),
            PatchStep::Write(base + 0x12624F0nat, seq![0u8]),
            PatchStep::Write(base + 0x5AAD8Dnat, seq![0x88u8, 0x13u8, 0u8, 0u8]),
        ],
{
    reveal_with_fuel(crate::utils::traits::le_bytes, 5);
    assert(<i8 as ToBytes>::spec_le_bytes(0) =~= seq![0u8]);
    assert(<i32 as ToBytes>::spec_le_bytes(5000) =~= seq![0x88u8, 0x13u8, 0u8, 0u8]);
    assert(multi_plan(base) =~= seq![
        PatchStep::Write(base + 0x12624B0nat, seq![0u8]),
        PatchStep::Write(base + 0x12624F0nat, seq![0u8]),
        PatchStep::Write(base + 0x5AAD8Dnat, seq![0x88u8, 0x13u8, 0u8, 0u8]),
    ]);
}

} // verus!
