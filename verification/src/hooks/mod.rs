//! What the patch does to the game process, as an ordered plan: the function
//! detours to install and the bytes to write, at absolute addresses.
//!
//! The plan is carried out in order; installing a detour can fail, and the
//! plan stops at the first failure, with the steps before it already done.
use vstd::prelude::*;
use crate::common::config::Config;
use crate::utils::MemoryWrite;
use crate::utils::address::AddressSpace;

pub mod limits;
pub mod misc;
pub mod multi;
pub mod overrides;
pub mod version;

verus! {

/// The highest offset, from the module base, that any step of the plan
/// touches.
pub const HIGHEST_OFFSET: usize = 0x12624F0;

/// Whether every address of the plan stays within the machine's address
/// range once the module base is added.
pub open spec fn can_patch(space: &AddressSpace) -> bool {
    space.reaches(HIGHEST_OFFSET as nat)
}

/// The game functions that the patch detours.
#[derive(Clone, Copy, Debug, PartialEq, Eq, Structural)]
pub enum Hook {
    /// Returns the layout of the game's memory blocks.
    GetMemoryLayoutDefinition,
    /// Parses an XML file of the game's data.
    XmlParse,
    /// Opens a file or packfile.
    KeenCfOpenFile,
    /// Returns the build version string shown by the game.
    KeenGetBuildVersionString,
    /// Pushes a new game state.
    GameseqPushState,
    /// One iteration of the first start-up stage.
    RfgInitStage1LoopUpdate,
    /// One frame of the game loop.
    RfgDoFrame,
    /// Sets the frame time cap.
    FrametimeSetCap,
    /// Prints a line on the game's console.
    ConsoleUpdate,
}

/// Where each detoured function lies, as an offset from the module base.
pub open spec fn hook_offset(hook: Hook) -> usize {
    match hook {
        Hook::GetMemoryLayoutDefinition => 0x8E5DC0,
        Hook::XmlParse => 0x1CD2F0,
        Hook::KeenCfOpenFile => 0x1B6790,
        Hook::KeenGetBuildVersionString => 0x58740,
        Hook::GameseqPushState => 0x3D87E0,
        Hook::RfgInitStage1LoopUpdate => 0x1D2360,
        Hook::RfgDoFrame => 0x1D2420,
        Hook::FrametimeSetCap => 0x18AD30,
        Hook::ConsoleUpdate => 0x1AF260,
    }
}

impl Hook {
    /// The offset of the detoured function from the module base.
    pub fn offset(self) -> (offset: usize)
        ensures
            offset == hook_offset(self),
            offset <= HIGHEST_OFFSET,
    {
        match self {
            Hook::GetMemoryLayoutDefinition => 0x8E5DC0,
            Hook::XmlParse => 0x1CD2F0,
            Hook::KeenCfOpenFile => 0x1B6790,
            Hook::KeenGetBuildVersionString => 0x58740,
            Hook::GameseqPushState => 0x3D87E0,
            Hook::RfgInitStage1LoopUpdate => 0x1D2360,
            Hook::RfgDoFrame => 0x1D2420,
            Hook::FrametimeSetCap => 0x18AD30,
            Hook::ConsoleUpdate => 0x1AF260,
        }
    }
}

/// One step of the plan.
pub enum PatchAction {
    /// Initialise the hooking engine; every detour needs it.
    InitializeHooks,
    /// Detour the function `hook`, which lies at the absolute address `target`.
    InstallHook { hook: Hook, target: usize },
    /// Write bytes into the game's memory.
    Write(MemoryWrite),
}

/// A step of the plan as plain values.
pub enum PatchStep {
    InitializeHooks,
    InstallHook(Hook, nat),
    Write(nat, Seq<u8>),
}

impl View for PatchAction {
    type V = PatchStep;

    open spec fn view(&self) -> PatchStep {
        match self {
            PatchAction::InitializeHooks => PatchStep::InitializeHooks,
            PatchAction::InstallHook { hook, target } => PatchStep::InstallHook(*hook, *target as nat),
            PatchAction::Write(w) => PatchStep::Write(w.address as nat, w.bytes@),
        }
    }
}

/// The plan as plain values.
pub open spec fn steps(actions: Seq<PatchAction>) -> Seq<PatchStep> {
    actions.map_values(|a: PatchAction| a@)
}

/// Pushing an action pushes its step.
pub proof fn lemma_steps_push(actions: Seq<PatchAction>, action: PatchAction)
    ensures
        steps(actions.push(action)) == steps(actions).push(action@),
{
    assert(steps(actions.push(action)) =~= steps(actions).push(action@));
}

/// The step that detours `hook` in a module loaded at `base`.
pub open spec fn hook_step(base: nat, hook: Hook) -> PatchStep {
    PatchStep::InstallHook(hook, base + hook_offset(hook) as nat)
}

/// The step that detours `hook` in the module of `space`.
pub fn install_hook(space: &AddressSpace, hook: Hook) -> (action: PatchAction)
    requires
        can_patch(space),
    ensures
        action@ == hook_step(space@, hook),
{
    let offset = hook.offset();
    PatchAction::InstallHook { hook, target: crate::utils::address::addr(space, offset) }
}

/// Appends the steps of `more` to `plan`, in order.
pub fn append_plan(plan: &mut Vec<PatchAction>, more: Vec<PatchAction>)
    ensures
        steps(final(plan)@) == steps(old(plan)@) + steps(more@),
{
    let mut more = more;
    proof {
        assert(steps(old(plan)@) + steps(more@) =~= steps(old(plan)@ + more@));
    }
    plan.append(&mut more);
}

/// The whole plan of the patch for a module loaded at `base`: initialise
/// the hooking engine, then the limit raises, the overrides, the version
/// string, the game loop changes and the multiplayer changes, in this order.
pub open spec fn patch_plan(base: nat, use_overrides: bool) -> Seq<PatchStep> {
    seq![PatchStep::InitializeHooks] + limits::limits_plan(base) + overrides::overrides_plan(
        base,
        use_overrides,
    ) + version::version_plan(base) + misc::misc_plan(base) + multi::multi_plan(base)
}

/// The plan of the whole patch, under the given settings.
pub fn init(space: &AddressSpace, config: &Config) -> (plan: Vec<PatchAction>)
    requires
        can_patch(space),
    ensures
        steps(plan@) == patch_plan(space@, config.use_overrides),
{
    let mut plan: Vec<PatchAction> = Vec::new();
    plan.push(PatchAction::InitializeHooks);
    assert(steps(plan@) =~= seq![PatchStep::InitializeHooks]);
    append_plan(&mut plan, limits::apply(space));
    append_plan(&mut plan, overrides::apply(space, config));
    append_plan(&mut plan, version::apply(space));
    append_plan(&mut plan, misc::apply(space));
    append_plan(&mut plan, multi::apply(space));
    plan
}

/// Whether a step stays inside the part of a module loaded at `base` that
/// the patch may touch: a detour target, and every byte written, lies
/// between `base` and `base + HIGHEST_OFFSET`.
pub open spec fn step_in_module(step: PatchStep, base: nat) -> bool {
    match step {
        PatchStep::InitializeHooks => true,
        PatchStep::InstallHook(_, target) => base <= target <= base + HIGHEST_OFFSET,
        PatchStep::Write(address, bytes) => base <= address && address + bytes.len() <= base
            + HIGHEST_OFFSET + 1,
    }
}

proof fn lemma_hooks_in_module(base: nat, hook: Hook)
    ensures
        step_in_module(hook_step(base, hook), base),
{
}

/// The patch stays inside the game module, and the hooking engine is
/// initialised before anything else and only once: the plan starts with the
/// initialisation, no later step initialises again, and every detour target
/// and every byte written lies between the module base and the base plus
/// `HIGHEST_OFFSET`.
pub proof fn lemma_plan_in_module(base: nat, use_overrides: bool)
    ensures
        patch_plan(base, use_overrides)[0] is InitializeHooks,
        forall|i: int|
            0 < i < patch_plan(base, use_overrides).len() ==> !(#[trigger] patch_plan(
                base,
                use_overrides,
            )[i] is InitializeHooks),
        forall|i: int|
            0 <= i < patch_plan(base, use_overrides).len() ==> step_in_module(
                #[trigger] patch_plan(base, use_overrides)[i],
                base,
            ),
{
    let plan = patch_plan(base, use_overrides);
    let rest = plan.drop_first();
    let mem = limits::memory_pool_writes(base);
    let strings = limits::string_pool_writes(base);
    assert forall|i: int| 0 <= i < mem.len() implies step_in_module(#[trigger] mem[i], base)
        && !(mem[i] is InitializeHooks) by {
        crate::utils::traits::lemma_le_bytes_len(limits::memory_pool_table()[i].1 as nat, 4);
    }
    assert forall|i: int| 0 <= i < strings.len() implies step_in_module(#[trigger] strings[i], base)
        && !(strings[i] is InitializeHooks) by {
        crate::utils::traits::lemma_le_bytes_len(limits::string_pool_table()[i / 2].2 as nat, 4);
    }
    let lim = limits::limits_plan(base);
    assert forall|i: int| 0 <= i < lim.len() implies step_in_module(#[trigger] lim[i], base)
        && !(lim[i] is InitializeHooks) by {
        if i == 0 {
            lemma_hooks_in_module(base, Hook::GetMemoryLayoutDefinition);
        } else if i < 1 + mem.len() {
            assert(lim[i] == mem[i - 1]);
        } else {
            assert(lim[i] == strings[i - 1 - mem.len()]);
        }
    }
    let ov = overrides::overrides_plan(base, use_overrides);
    let ver = version::version_plan(base);
    let mi = misc::misc_plan(base);
    let mu = multi::multi_plan(base);
    crate::utils::traits::lemma_le_bytes_len(0, 1);
    crate::utils::traits::lemma_le_bytes_len(5000, 4);
    assert forall|i: int| 0 <= i < mi.len() implies step_in_module(#[trigger] mi[i], base)
        && !(mi[i] is InitializeHooks) by {
    }
    assert forall|i: int| 0 <= i < mu.len() implies step_in_module(#[trigger] mu[i], base)
        && !(mu[i] is InitializeHooks) by {
    }
    assert forall|i: int| 0 <= i < ov.len() implies step_in_module(#[trigger] ov[i], base)
        && !(ov[i] is InitializeHooks) by {
    }
    assert forall|i: int| 0 <= i < ver.len() implies step_in_module(#[trigger] ver[i], base)
        && !(ver[i] is InitializeHooks) by {
    }
    assert(rest =~= lim + ov + ver + mi + mu);
    assert forall|i: int| 0 <= i < rest.len() implies step_in_module(#[trigger] rest[i], base)
        && !(rest[i] is InitializeHooks) by {
        let a = lim.len() as int;
        let b = a + ov.len();
        let c = b + ver.len();
        let d = c + mi.len();
        if i < a {
            assert(rest[i] == lim[i]);
        } else if i < b {
            assert(rest[i] == ov[i - a]);
        } else if i < c {
            assert(rest[i] == ver[i - b]);
        } else if i < d {
            assert(rest[i] == mi[i - c]);
        } else {
            assert(rest[i] == mu[i - d]);
        }
    }
    assert forall|i: int| 0 < i < plan.len() implies !(#[trigger] plan[i] is InitializeHooks)
        && step_in_module(plan[i], base) by {
        assert(plan[i] == rest[i - 1]);
    }
}

/// Where a run of the plan stands after a step was carried out.
#[derive(Clone, Copy, Debug, PartialEq, Eq, Structural)]
pub enum PlanProgress {
    /// Carry out the step at this position next.
    Next(usize),
    /// The step at this position failed; the run stops there and reports
    /// that step's error, and no later step is carried out.
    Failed(usize),
    /// Every step was carried out.
    Finished,
}

/// What follows the step at `position` of a plan of `len` steps, given
/// whether it succeeded.
pub open spec fn plan_transition(len: nat, position: nat, succeeded: bool) -> PlanProgress {
    if !succeeded {
        PlanProgress::Failed(position as usize)
    } else if position + 1 < len {
        PlanProgress::Next((position + 1) as usize)
    } else {
        PlanProgress::Finished
    }
}

/// Decides what follows the step at `position` of a plan of `len` steps:
/// a failure stops the run; else the next step follows, until the last.
pub fn plan_step(len: usize, position: usize, succeeded: bool) -> (progress: PlanProgress)
    requires
        position < len,
    ensures
        progress == plan_transition(len as nat, position as nat, succeeded),
{
    if !succeeded {
        PlanProgress::Failed(position)
    } else if position + 1 < len {
        PlanProgress::Next(position + 1)
    } else {
        PlanProgress::Finished
    }
}

/// Whether a run that follows `plan_step` from `position`, with `results`
/// telling which steps succeed, carries out the step at `j`.
pub open spec fn run_visits(len: nat, position: nat, results: Seq<bool>, j: nat) -> bool
    decreases len - position,
{
    if position >= len || position >= results.len() {
        false
    } else if j == position {
        true
    } else {
        match plan_transition(len, position, results[position as int]) {
            PlanProgress::Next(next) => next > position && run_visits(len, next as nat, results, j),
            _ => false,
        }
    }
}

/// How a run that follows `plan_step` from `position` ends.
pub open spec fn run_outcome(len: nat, position: nat, results: Seq<bool>) -> PlanProgress
    decreases len - position,
{
    if position >= len || position >= results.len() {
        PlanProgress::Finished
    } else {
        match plan_transition(len, position, results[position as int]) {
            PlanProgress::Next(next) => if next > position {
                run_outcome(len, next as nat, results)
            } else {
                PlanProgress::Finished
            },
            other => other,
        }
    }
}

proof fn lemma_run_from(len: nat, position: nat, results: Seq<bool>)
    requires
        results.len() == len,
        len <= usize::MAX,
        position <= len,
    ensures
        forall|j: nat|
            #[trigger] run_visits(len, position, results, j) <==> (position <= j < len && forall|k: int|
                position <= k < j ==> results[k]),
        run_outcome(len, position, results) matches PlanProgress::Failed(i) ==> position <= i < len
            && !results[i as int] && forall|k: int| position <= k < i ==> results[k],
        run_outcome(len, position, results) is Finished <==> forall|k: int|
            position <= k < len ==> results[k],
        !(run_outcome(len, position, results) is Next),
    decreases len - position,
{
    if position < len {
        lemma_run_from(len, position + 1, results);
        if !results[position as int] {
            assert forall|j: nat| #[trigger] run_visits(len, position, results, j) <==> (position <= j
                < len && forall|k: int| position <= k < j ==> results[k]) by {
                if j > position {
                    assert(!results[position as int]);
                }
            }
        } else {
            assert forall|j: nat| #[trigger] run_visits(len, position, results, j) <==> (position <= j
                < len && forall|k: int| position <= k < j ==> results[k]) by {
                if j != position && position + 1 < len {
                    assert(run_visits(len, position, results, j) == run_visits(
                        len,
                        position + 1,
                        results,
                        j,
                    ));
                    let all_before = forall|k: int| position <= k < j ==> results[k];
                    let all_after = forall|k: int| position + 1 <= k < j ==> results[k];
                    assert(all_before ==> all_after);
                    if all_after {
                        assert forall|k: int| position <= k < j implies results[k] by {
                            if k == position {
                            } else {
                                assert(position + 1 <= k < j);
                            }
                        }
                    }
                    assert(all_before <==> all_after);
                }
            }
        }
    }
}

/// A run of a plan stops at the first failure: following `plan_step` from
/// the first step, a step is carried out exactly when every step before it
/// succeeded; the run ends `Failed` at the first step that failed, or
/// `Finished` when every step succeeded.
pub proof fn lemma_run_stops_at_first_failure(results: Seq<bool>)
    requires
        results.len() <= usize::MAX,
    ensures
        forall|j: nat|
            #[trigger] run_visits(results.len(), 0, results, j) <==> (j < results.len() && forall|
                k: int,
            |
                0 <= k < j ==> results[k]),
        run_outcome(results.len(), 0, results) matches PlanProgress::Failed(i) ==> i < results.len()
            && !results[i as int] && forall|k: int| 0 <= k < i ==> results[k],
        run_outcome(results.len(), 0, results) is Finished <==> forall|k: int|
            0 <= k < results.len() ==> results[k],
{
    lemma_run_from(results.len(), 0, results);
}

/// Whether a step detours `hook`.
pub open spec fn installs(step: PatchStep, hook: Hook) -> bool {
    step matches PatchStep::InstallHook(h, _) && h == hook
}

/// Where the detour of `hook` stands in the whole plan.
pub open spec fn hook_position(hook: Hook, use_overrides: bool) -> int {
    let after_overrides: int = if use_overrides { 84 } else { 82 };
    match hook {
        Hook::GetMemoryLayoutDefinition => 1,
        Hook::XmlParse => 82,
        Hook::KeenCfOpenFile => 83,
        Hook::KeenGetBuildVersionString => after_overrides,
        Hook::GameseqPushState => after_overrides + 1,
        Hook::RfgInitStage1LoopUpdate => after_overrides + 2,
        Hook::RfgDoFrame => after_overrides + 3,
        Hook::FrametimeSetCap => after_overrides + 4,
        Hook::ConsoleUpdate => after_overrides + 5,
    }
}

/// No function is detoured twice, which the hooking engine would refuse:
/// each detour of the plan stands at the one position of its hook, so two
/// steps that detour the same function are the same step.
pub proof fn lemma_each_hook_installed_once(base: nat, use_overrides: bool, hook: Hook)
    ensures
        forall|i: int|
            0 <= i < patch_plan(base, use_overrides).len() && installs(
                #[trigger] patch_plan(base, use_overrides)[i],
                hook,
            ) ==> i == hook_position(hook, use_overrides),
        forall|i: int, j: int|
            0 <= i < patch_plan(base, use_overrides).len() && 0 <= j < patch_plan(
                base,
                use_overrides,
            ).len() && installs(#[trigger] patch_plan(base, use_overrides)[i], hook) && installs(
                #[trigger] patch_plan(base, use_overrides)[j],
                hook,
            ) ==> i == j,
{
    let plan = patch_plan(base, use_overrides);
    let init = seq![PatchStep::InitializeHooks];
    let mem = limits::memory_pool_writes(base);
    let strings = limits::string_pool_writes(base);
    let lim = limits::limits_plan(base);
    let ov = overrides::overrides_plan(base, use_overrides);
    let ver = version::version_plan(base);
    let mi = misc::misc_plan(base);
    let mu = multi::multi_plan(base);
    assert(lim.len() == 81);
    assert(plan =~= init + lim + ov + ver + mi + mu);
    assert forall|i: int| 0 <= i < plan.len() && installs(#[trigger] plan[i], hook) implies i
        == hook_position(hook, use_overrides) by {
        let a = 1 + lim.len() as int;
        let b = a + ov.len();
        let c = b + ver.len();
        let d = c + mi.len();
        if i == 0 {
            assert(plan[i] == init[0]);
        } else if i < a {
            assert(plan[i] == lim[i - 1]);
            if i == 1 {
            } else if i < 1 + 1 + mem.len() {
                assert(lim[i - 1] == mem[i - 2]);
            } else {
                assert(lim[i - 1] == strings[i - 2 - mem.len()]);
            }
        } else if i < b {
            assert(plan[i] == ov[i - a]);
        } else if i < c {
            assert(plan[i] == ver[i - b]);
        } else if i < d {
            assert(plan[i] == mi[i - c]);
        } else {
            assert(plan[i] == mu[i - d]);
        }
    }
}

/// The position of the write that lets the game save with cheats on.
pub open spec fn cheat_save_position(use_overrides: bool) -> int {
    hook_position(Hook::ConsoleUpdate, use_overrides) + 1
}

/// When a step of the patch fails, nothing after it is done. In
/// particular: the hooking engine comes first, so if it cannot start,
/// nothing else runs; the memory layout detour comes before every memory
/// and string pool write, so if it cannot be installed, no pool size is
/// written; and the five game loop detours come before the write that lets
/// the game save with cheats on, so if one of them cannot be installed, that
/// byte is not written.
pub proof fn lemma_patch_failure_stops_later_steps(base: nat, use_overrides: bool, results: Seq<bool>)
    requires
        results.len() == patch_plan(base, use_overrides).len(),
    ensures
        forall|i: int, j: nat|
            #![trigger results[i], run_visits(results.len(), 0, results, j)]
            0 <= i < j && !results[i] ==> !run_visits(results.len(), 0, results, j),
        patch_plan(base, use_overrides)[0] is InitializeHooks,
        installs(patch_plan(base, use_overrides)[1], Hook::GetMemoryLayoutDefinition),
        forall|j: int| 2 <= j < 82 ==> #[trigger] patch_plan(base, use_overrides)[j] is Write,
        patch_plan(base, use_overrides)[cheat_save_position(use_overrides)] == PatchStep::Write(
            base + 0x3EADEDnat,
            <i8 as crate::utils::traits::ToBytes>::spec_le_bytes(0),
        ),
        installs(
            patch_plan(base, use_overrides)[hook_position(Hook::GameseqPushState, use_overrides)],
            Hook::GameseqPushState,
        ),
        installs(
            patch_plan(base, use_overrides)[hook_position(Hook::RfgInitStage1LoopUpdate, use_overrides)],
            Hook::RfgInitStage1LoopUpdate,
        ),
        installs(
            patch_plan(base, use_overrides)[hook_position(Hook::RfgDoFrame, use_overrides)],
            Hook::RfgDoFrame,
        ),
        installs(
            patch_plan(base, use_overrides)[hook_position(Hook::FrametimeSetCap, use_overrides)],
            Hook::FrametimeSetCap,
        ),
        installs(
            patch_plan(base, use_overrides)[hook_position(Hook::ConsoleUpdate, use_overrides)],
            Hook::ConsoleUpdate,
        ),
        hook_position(Hook::GameseqPushState, use_overrides) < cheat_save_position(use_overrides),
        hook_position(Hook::RfgInitStage1LoopUpdate, use_overrides) < cheat_save_position(use_overrides),
        hook_position(Hook::RfgDoFrame, use_overrides) < cheat_save_position(use_overrides),
        hook_position(Hook::FrametimeSetCap, use_overrides) < cheat_save_position(use_overrides),
        hook_position(Hook::ConsoleUpdate, use_overrides) < cheat_save_position(use_overrides),
{
    let plan = patch_plan(base, use_overrides);
    lemma_plan_in_module(base, use_overrides);
    assert(plan.len() <= usize::MAX);
    lemma_run_stops_at_first_failure(results);
    let init = seq![PatchStep::InitializeHooks];
    let mem = limits::memory_pool_writes(base);
    let strings = limits::string_pool_writes(base);
    let lim = limits::limits_plan(base);
    let ov = overrides::overrides_plan(base, use_overrides);
    let ver = version::version_plan(base);
    let mi = misc::misc_plan(base);
    let mu = multi::multi_plan(base);
    assert(plan =~= init + lim + ov + ver + mi + mu);
    assert(plan[1] == lim[0]);
    assert forall|j: int| 2 <= j < 82 implies #[trigger] plan[j] is Write by {
        assert(plan[j] == lim[j - 1]);
        if j < 8 {
            assert(lim[j - 1] == mem[j - 2]);
        } else {
            assert(lim[j - 1] == strings[j - 8]);
        }
    }
    let c: int = 82 + ov.len() as int + ver.len() as int;
    assert(plan[c] == mi[0]);
    assert(plan[c + 1] == mi[1]);
    assert(plan[c + 2] == mi[2]);
    assert(plan[c + 3] == mi[3]);
    assert(plan[c + 4] == mi[4]);
    assert(plan[c + 5] == mi[5]);
}

/// A step moved by `delta` bytes: its address, if it has one, grows by
/// `delta`.
pub open spec fn relocate_step(step: PatchStep, delta: nat) -> PatchStep {
    match step {
        PatchStep::InitializeHooks => PatchStep::InitializeHooks,
        PatchStep::InstallHook(hook, target) => PatchStep::InstallHook(hook, target + delta),
        PatchStep::Write(address, bytes) => PatchStep::Write(address + delta, bytes),
    }
}

/// A plan moved by `delta` bytes.
pub open spec fn relocate(plan: Seq<PatchStep>, delta: nat) -> Seq<PatchStep> {
    plan.map_values(|step: PatchStep| relocate_step(step, delta))
}

proof fn lemma_relocate_concat(a: Seq<PatchStep>, b: Seq<PatchStep>, delta: nat)
    ensures
        relocate(a + b, delta) == relocate(a, delta) + relocate(b, delta),
{
    assert(relocate(a + b, delta) =~= relocate(a, delta) + relocate(b, delta));
}

/// The patch does not depend on where the game is loaded: the plan for a
/// module at `base` is the plan for a module at address 0, every address
/// moved by `base`, and the bytes written unchanged.
pub proof fn lemma_plan_relocates(base: nat, use_overrides: bool)
    ensures
        patch_plan(base, use_overrides) == relocate(patch_plan(0, use_overrides), base),
{
    let init = seq![PatchStep::InitializeHooks];
    assert(relocate(init, base) =~= init);
    assert(relocate(limits::memory_pool_writes(0), base) =~= limits::memory_pool_writes(base));
    assert(relocate(limits::string_pool_writes(0), base) =~= limits::string_pool_writes(base));
    let hook = seq![hook_step(0, Hook::GetMemoryLayoutDefinition)];
    assert(relocate(hook, base) =~= seq![hook_step(base, Hook::GetMemoryLayoutDefinition)]);
    lemma_relocate_concat(hook, limits::memory_pool_writes(0), base);
    lemma_relocate_concat(hook + limits::memory_pool_writes(0), limits::string_pool_writes(0), base);
    assert(relocate(limits::limits_plan(0), base) =~= limits::limits_plan(base));
    assert(relocate(overrides::overrides_plan(0, use_overrides), base)
        =~= overrides::overrides_plan(base, use_overrides));
    assert(relocate(version::version_plan(0), base) =~= version::version_plan(base));
    assert(relocate(misc::misc_plan(0), base) =~= misc::misc_plan(base));
    assert(relocate(multi::multi_plan(0), base) =~= multi::multi_plan(base));
    let p1 = init + limits::limits_plan(0);
    let p2 = p1 + overrides::overrides_plan(0, use_overrides);
    let p3 = p2 + version::version_plan(0);
    let p4 = p3 + misc::misc_plan(0);
    lemma_relocate_concat(init, limits::limits_plan(0), base);
    lemma_relocate_concat(p1, overrides::overrides_plan(0, use_overrides), base);
    lemma_relocate_concat(p2, version::version_plan(0), base);
    lemma_relocate_concat(p3, misc::misc_plan(0), base);
    lemma_relocate_concat(p4, multi::multi_plan(0), base);
}

/// The game functions lie where the patch detours them: the memory layout
/// query at 0x8E5DC0, the XML parser at 0x1CD2F0, the file opener at
/// 0x1B6790, the version string at 0x58740, the state push at 0x3D87E0, the
/// first start-up stage at 0x1D2360, the frame at 0x1D2420, the frame cap at
/// 0x18AD30 and the console at 0x1AF260 (offsets from the module base).
pub proof fn lemma_hook_offsets()
    ensures
        hook_offset(Hook::GetMemoryLayoutDefinition) == 0x8E5DC0,
        hook_offset(Hook::XmlParse) == 0x1CD2F0,
        hook_offset(Hook::KeenCfOpenFile) == 0x1B6790,
        hook_offset(Hook::KeenGetBuildVersionString) == 0x58740,
        hook_offset(Hook::GameseqPushState) == 0x3D87E0,
        hook_offset(Hook::RfgInitStage1LoopUpdate) == 0x1D2360,
        hook_offset(Hook::RfgDoFrame) == 0x1D2420,
        hook_offset(Hook::FrametimeSetCap) == 0x18AD30,
        hook_offset(Hook::ConsoleUpdate) == 0x1AF260,
{
}

} // verus!
