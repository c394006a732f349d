//! The build version string that the game shows.
use vstd::prelude::*;
use crate::hooks::{can_patch, hook_step, install_hook, steps, Hook, PatchAction, PatchStep};
use crate::utils::address::AddressSpace;

verus! {

/// The version detour of a module loaded at `base`.
pub open spec fn version_plan(base: nat) -> Seq<PatchStep> {
    seq![hook_step(base, Hook::KeenGetBuildVersionString)]
}

/// The prefix of the version string that the game shows.
pub open spec fn version_prefix() -> Seq<char> {
    seq!['R', 'u', 's', 't', ' ', 'F', 'a', 'c', 't', 'i', 'o', 'n', ' ']
}

/// Replaces the game's build version string.
pub fn apply(space: &AddressSpace) -> (plan: Vec<PatchAction>)
    requires
        can_patch(space),
    ensures
        steps(plan@) == version_plan(space@),
{
    let mut plan: Vec<PatchAction> = Vec::new();
    plan.push(install_hook(space, Hook::KeenGetBuildVersionString));
    assert(steps(plan@) =~= version_plan(space@));
    plan
}

/// The version string that the game shows instead of its own:
/// "Rust Faction " followed by the version of the patch.
pub fn build_version_string(version: &str) -> (text: String)
    ensures
        text@ == version_prefix() + version@,
{
    let prefix = String::from_str("Rust Faction ");
    proof {
        reveal_strlit("Rust Faction ");
    }
    let text = prefix.concat(version);
    assert(text@ =~= version_prefix() + version@);
    text
}

/// The version string starts with "Rust Faction " (thirteen characters,
/// the last a space) and ends with the patch's version, unchanged.
pub proof fn lemma_version_prefix(version: Seq<char>)
    ensures
        version_prefix().len() == 13,
        version_prefix() =~= seq!['R', 'u', 's', 't', ' ', 'F', 'a', 'c', 't', 'i', 'o', 'n', ' '],
        (version_prefix() + version).subrange(13, 13 + version.len() as int) == version,
{
    assert((version_prefix() + version).subrange(13, 13 + version.len() as int) =~= version);
}

} // verus!
