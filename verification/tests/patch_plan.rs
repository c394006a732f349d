use rust_faction::common::config::Config;
use rust_faction::hooks::{self, Hook, PatchAction};
use rust_faction::hooks::{limits, misc, multi, overrides, version};
use rust_faction::utils::address::{addr, get_module_base, set_module_base, AddressSpace};
use rust_faction::utils::patchers::patch_string_pool_size;
use rust_faction::utils::traits::ToBytes;
use rust_faction::utils::write_value;

fn space_at(base: usize) -> AddressSpace {
    let mut space = AddressSpace::new();
    set_module_base(&mut space, base);
    space
}

fn write_of(action: &PatchAction) -> (usize, Vec<u8>) {
    match action {
        PatchAction::Write(w) => (w.address, w.bytes.clone()),
        _ => panic!("not a write"),
    }
}

fn hook_of(action: &PatchAction) -> (Hook, usize) {
    match action {
        PatchAction::InstallHook { hook, target } => (*hook, *target),
        _ => panic!("not a detour"),
    }
}

#[test]
fn module_base_starts_at_zero_and_reads_back() {
    let mut space = AddressSpace::new();
    assert_eq!(get_module_base(&space), 0);
    set_module_base(&mut space, 0x400000);
    assert_eq!(get_module_base(&space), 0x400000);
    set_module_base(&mut space, 0x10000);
    assert_eq!(get_module_base(&space), 0x10000);
}

#[test]
fn addr_adds_the_module_base() {
    let space = space_at(0x400000);
    assert_eq!(addr(&space, 0x123456), 0x523456);
    assert_eq!(addr(&space, 0), 0x400000);
}

#[test]
fn integers_become_little_endian_bytes() {
    assert_eq!(<u16 as ToBytes>::to_le_bytes(0x1234), vec![0x34, 0x12]);
    assert_eq!(<u32 as ToBytes>::to_le_bytes(0x12345678), vec![0x78, 0x56, 0x34, 0x12]);
    assert_eq!(
        <u64 as ToBytes>::to_le_bytes(0x0102030405060708),
        vec![8, 7, 6, 5, 4, 3, 2, 1]
    );
    assert_eq!(<i8 as ToBytes>::to_le_bytes(0), vec![0]);
    assert_eq!(<i8 as ToBytes>::to_le_bytes(-1), vec![0xFF]);
    assert_eq!(<i16 as ToBytes>::to_le_bytes(-2), vec![0xFE, 0xFF]);
    assert_eq!(<i32 as ToBytes>::to_le_bytes(5000), vec![0x88, 0x13, 0, 0]);
    assert_eq!(<i32 as ToBytes>::to_le_bytes(i32::MIN), vec![0, 0, 0, 0x80]);
    assert_eq!(<i64 as ToBytes>::to_le_bytes(-1), vec![0xFF; 8]);
}

#[test]
fn bytes_agree_with_std() {
    for v in [0u32, 1, 255, 256, 26738688, u32::MAX] {
        assert_eq!(<u32 as ToBytes>::to_le_bytes(v), v.to_le_bytes().to_vec());
    }
    for v in [0i64, -1, i64::MIN, i64::MAX, 1 << 40] {
        assert_eq!(<i64 as ToBytes>::to_le_bytes(v), v.to_le_bytes().to_vec());
    }
    for v in [0i16, -1, i16::MIN, i16::MAX] {
        assert_eq!(<i16 as ToBytes>::to_le_bytes(v), v.to_le_bytes().to_vec());
    }
}

#[test]
fn write_value_writes_the_bytes_at_the_address() {
    let w = write_value(0x1000usize, 4096u32);
    assert_eq!(w.address, 0x1000);
    assert_eq!(w.bytes, vec![0x00, 0x10, 0x00, 0x00]);
}

#[test]
fn string_pool_size_goes_to_both_operands() {
    let writes = patch_string_pool_size(0x10, 0x20, 2048);
    assert_eq!(writes.len(), 2);
    assert_eq!(writes[0].address, 0x10);
    assert_eq!(writes[1].address, 0x20);
    assert_eq!(writes[0].bytes, vec![0x00, 0x08, 0, 0]);
    assert_eq!(writes[1].bytes, vec![0x00, 0x08, 0, 0]);
}

#[test]
fn multiplayer_changes() {
    let plan = multi::apply(&space_at(0x400000));
    assert_eq!(plan.len(), 3);
    assert_eq!(write_of(&plan[0]), (0x400000 + 0x12624B0, vec![0]));
    assert_eq!(write_of(&plan[1]), (0x400000 + 0x12624F0, vec![0]));
    assert_eq!(write_of(&plan[2]), (0x400000 + 0x5AAD8D, vec![0x88, 0x13, 0, 0]));
}

#[test]
fn game_loop_changes() {
    let plan = misc::apply(&space_at(0x400000));
    assert_eq!(plan.len(), 6);
    assert_eq!(hook_of(&plan[0]), (Hook::GameseqPushState, 0x400000 + 0x3D87E0));
    assert_eq!(hook_of(&plan[1]), (Hook::RfgInitStage1LoopUpdate, 0x400000 + 0x1D2360));
    assert_eq!(hook_of(&plan[2]), (Hook::RfgDoFrame, 0x400000 + 0x1D2420));
    assert_eq!(hook_of(&plan[3]), (Hook::FrametimeSetCap, 0x400000 + 0x18AD30));
    assert_eq!(hook_of(&plan[4]), (Hook::ConsoleUpdate, 0x400000 + 0x1AF260));
    assert_eq!(write_of(&plan[5]), (0x400000 + 0x3EADED, vec![0]));
}

#[test]
fn version_detour() {
    let plan = version::apply(&space_at(0));
    assert_eq!(plan.len(), 1);
    assert_eq!(hook_of(&plan[0]), (Hook::KeenGetBuildVersionString, 0x58740));
}

#[test]
fn overrides_follow_the_settings() {
    let space = space_at(0x400000);
    let mut config = Config::default();
    assert!(config.use_overrides);
    let plan = overrides::apply(&space, &config);
    assert_eq!(plan.len(), 2);
    assert_eq!(hook_of(&plan[0]), (Hook::XmlParse, 0x400000 + 0x1CD2F0));
    assert_eq!(hook_of(&plan[1]), (Hook::KeenCfOpenFile, 0x400000 + 0x1B6790));
    config.use_overrides = false;
    assert!(overrides::apply(&space, &config).is_empty());
}

#[test]
fn limit_raises() {
    let plan = limits::apply(&space_at(0x400000));
    assert_eq!(plan.len(), 1 + 6 + 2 * 37);
    assert_eq!(hook_of(&plan[0]), (Hook::GetMemoryLayoutDefinition, 0x400000 + 0x8E5DC0));
    // Common_page_pool.
    assert_eq!(write_of(&plan[1]), (0x400000 + 0x1D8660, 26738688u32.to_le_bytes().to_vec()));
    // Item_preload_pool, second operand.
    assert_eq!(write_of(&plan[6]), (0x400000 + 0x1D8F2C, 268435456u32.to_le_bytes().to_vec()));
    // Upgrades_string_pool.
    assert_eq!(write_of(&plan[7]), (0x400000 + 0x390D3C, 4096u32.to_le_bytes().to_vec()));
    assert_eq!(write_of(&plan[8]), (0x400000 + 0x390D6F, 4096u32.to_le_bytes().to_vec()));
    // Vehicle_info_string_pool, last pair.
    assert_eq!(write_of(&plan[79]), (0x400000 + 0x7AFE93, 16384u32.to_le_bytes().to_vec()));
    assert_eq!(write_of(&plan[80]), (0x400000 + 0x7AFEC3, 16384u32.to_le_bytes().to_vec()));
    for action in &plan[1..] {
        assert_eq!(write_of(action).1.len(), 4);
    }
}

#[test]
fn whole_patch_in_order() {
    let space = space_at(0x400000);
    let config = Config::default();
    let plan = hooks::init(&space, &config);
    assert_eq!(plan.len(), 1 + 81 + 2 + 1 + 6 + 3);
    assert!(matches!(plan[0], PatchAction::InitializeHooks));
    assert_eq!(hook_of(&plan[1]).0, Hook::GetMemoryLayoutDefinition);
    assert_eq!(hook_of(&plan[82]).0, Hook::XmlParse);
    assert_eq!(hook_of(&plan[83]).0, Hook::KeenCfOpenFile);
    assert_eq!(hook_of(&plan[84]).0, Hook::KeenGetBuildVersionString);
    assert_eq!(hook_of(&plan[85]).0, Hook::GameseqPushState);
    assert_eq!(write_of(&plan[93]).0, 0x400000 + 0x5AAD8D);
    for action in &plan[1..] {
        assert!(!matches!(action, PatchAction::InitializeHooks));
    }
    let mut off = Config::default();
    off.use_overrides = false;
    assert_eq!(hooks::init(&space, &off).len(), plan.len() - 2);
}

#[test]
fn plan_moves_with_the_module_base() {
    let config = Config::default();
    let at_zero = hooks::init(&space_at(0), &config);
    let moved = hooks::init(&space_at(0x400000), &config);
    assert_eq!(at_zero.len(), moved.len());
    for (a, b) in at_zero.iter().zip(moved.iter()) {
        match (a, b) {
            (PatchAction::InitializeHooks, PatchAction::InitializeHooks) => {}
            (
                PatchAction::InstallHook { hook: h1, target: t1 },
                PatchAction::InstallHook { hook: h2, target: t2 },
            ) => {
                assert_eq!(h1, h2);
                assert_eq!(t1 + 0x400000, *t2);
            }
            (PatchAction::Write(w1), PatchAction::Write(w2)) => {
                assert_eq!(w1.address + 0x400000, w2.address);
                assert_eq!(w1.bytes, w2.bytes);
            }
            _ => panic!("steps differ"),
        }
    }
}

#[test]
fn plan_stays_inside_the_module() {
    let plan = hooks::init(&space_at(0x400000), &Config::default());
    for action in &plan {
        match action {
            PatchAction::InitializeHooks => {}
            PatchAction::InstallHook { target, .. } => {
                assert!(*target >= 0x400000 && *target <= 0x400000 + hooks::HIGHEST_OFFSET)
            }
            PatchAction::Write(w) => {
                assert!(w.address >= 0x400000);
                assert!(w.address + w.bytes.len() <= 0x400000 + hooks::HIGHEST_OFFSET + 1);
            }
        }
    }
}

#[test]
fn hook_offsets() {
    assert_eq!(Hook::GetMemoryLayoutDefinition.offset(), 0x8E5DC0);
    assert_eq!(Hook::XmlParse.offset(), 0x1CD2F0);
    assert_eq!(Hook::ConsoleUpdate.offset(), 0x1AF260);
}

#[test]
fn no_function_is_detoured_twice() {
    for use_overrides in [true, false] {
        let mut config = Config::default();
        config.use_overrides = use_overrides;
        let plan = hooks::init(&space_at(0x400000), &config);
        let detoured: Vec<Hook> = plan
            .iter()
            .filter_map(|a| match a {
                PatchAction::InstallHook { hook, .. } => Some(*hook),
                _ => None,
            })
            .collect();
        for (i, a) in detoured.iter().enumerate() {
            for b in &detoured[i + 1..] {
                assert_ne!(a, b);
            }
        }
        assert_eq!(detoured.len(), if use_overrides { 9 } else { 7 });
        let version_at = if use_overrides { 84 } else { 82 };
        assert_eq!(hook_of(&plan[version_at]).0, Hook::KeenGetBuildVersionString);
        assert_eq!(hook_of(&plan[version_at + 5]).0, Hook::ConsoleUpdate);
    }
}

/// Runs a plan of `len` steps where the steps listed in `failing` fail,
/// following `plan_step`; returns the positions carried out and the end.
fn simulate(len: usize, failing: &[usize]) -> (Vec<usize>, hooks::PlanProgress) {
    let mut done = Vec::new();
    let mut position = 0;
    loop {
        done.push(position);
        match hooks::plan_step(len, position, !failing.contains(&position)) {
            hooks::PlanProgress::Next(next) => position = next,
            end => return (done, end),
        }
    }
}

#[test]
fn plan_runs_every_step_when_all_succeed() {
    let (done, end) = simulate(5, &[]);
    assert_eq!(done, vec![0, 1, 2, 3, 4]);
    assert_eq!(end, hooks::PlanProgress::Finished);
}

#[test]
fn plan_stops_at_the_first_failure() {
    let plan = hooks::init(&space_at(0x400000), &Config::default());
    // The hooking engine cannot start: nothing else runs.
    assert_eq!(simulate(plan.len(), &[0]), (vec![0], hooks::PlanProgress::Failed(0)));
    // The memory layout detour fails: no pool size is written.
    let (done, end) = simulate(plan.len(), &[1, 5]);
    assert_eq!(done, vec![0, 1]);
    assert_eq!(end, hooks::PlanProgress::Failed(1));
    // A game loop detour fails: the cheat-save byte is not written.
    let console = 89;
    assert_eq!(hook_of(&plan[console]).0, Hook::ConsoleUpdate);
    assert_eq!(write_of(&plan[console + 1]).0, 0x400000 + 0x3EADED);
    let (done, end) = simulate(plan.len(), &[console]);
    assert_eq!(done.len(), console + 1);
    assert!(!done.contains(&(console + 1)));
    assert_eq!(end, hooks::PlanProgress::Failed(console));
}
