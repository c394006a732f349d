use rust_faction::common::config::{Config, ConfigStore};
use rust_faction::common::utils::{c_string_bytes, c_string_or_empty, module_path_bytes, module_path_text};
use rust_faction::hooks::limits::{block_table_size, enlarge_mempool_provider};
use rust_faction::hooks::misc::{console_line, forwards_pushed_state, strip_newlines, PushedState};
use rust_faction::hooks::overrides::{xml_override, OverrideRead, XmlOverride};
use rust_faction::hooks::version::build_version_string;
use rust_faction::launcher::injector::{
    dll_path_payload, first_inject_stage, inject_step, InjectError, InjectStage, InjectStep,
};
use rust_faction::launcher::{
    first_launch_stage, launch_step, LaunchError, LaunchStage, LaunchStep, GAME_EXECUTABLE,
    PATCH_DLL,
};
use rust_faction::rfg::file::{CFileIOMediaType, CFileSearchType, VLibPlatform};
use rust_faction::rfg::hud::secondary_message_text;

fn same(a: &Config, b: &Config) -> bool {
    a.game_directory == b.game_directory
        && a.fps_limit == b.fps_limit
        && a.use_overrides == b.use_overrides
        && a.fast_start == b.fast_start
        && a.keep_launcher_open == b.keep_launcher_open
        && a.show_console == b.show_console
}

#[test]
fn default_settings() {
    let c = Config::default();
    assert_eq!(c.game_directory, "");
    assert_eq!(c.fps_limit, 120);
    assert!(c.use_overrides);
    assert!(c.fast_start);
    assert!(!c.keep_launcher_open);
    assert!(!c.show_console);
    let store = ConfigStore::new();
    assert!(same(&Config::get(&store), &c));
}

#[test]
fn init_uses_the_file_when_it_was_read() {
    let mut store = ConfigStore::new();
    let mut loaded = Config::default();
    loaded.game_directory = String::from("C:/Games/RFG");
    loaded.fps_limit = 60;
    let expected = loaded.clone();
    let to_save = Config::init(&mut store, Some(loaded));
    assert!(to_save.is_none());
    assert!(same(&Config::get(&store), &expected));
}

#[test]
fn init_falls_back_to_defaults_and_saves_them() {
    let mut store = ConfigStore::new();
    let mut other = Config::default();
    other.fps_limit = 30;
    Config::set(&mut store, other);
    let to_save = Config::init(&mut store, None).expect("defaults to save");
    assert!(same(&to_save, &Config::default()));
    assert!(same(&Config::get(&store), &Config::default()));
}

#[test]
fn get_after_set_gives_back_the_settings() {
    let mut store = ConfigStore::new();
    let mut c = Config::default();
    c.show_console = true;
    c.keep_launcher_open = true;
    c.game_directory = String::from("D:/rfg");
    let to_save = Config::set(&mut store, c.clone());
    assert!(same(&to_save, &c));
    assert!(same(&Config::get(&store), &c));
}

#[test]
fn console_lines_lose_their_line_feeds() {
    assert_eq!(console_line(b"Loaded zone\n"), "Loaded zone");
    assert_eq!(console_line(b"a\nb\n\nc"), "abc");
    assert_eq!(console_line(b""), "");
    assert_eq!(console_line("caf\u{e9}\n".as_bytes()), "caf\u{e9}");
    assert_eq!(console_line(&[0x66, 0xFF, 0x0A]), "Invalid text");
    assert_eq!(strip_newlines("no feeds"), "no feeds");
    assert_eq!(strip_newlines("\n\n"), "");
}

#[test]
fn version_string() {
    assert_eq!(build_version_string("1.2.0"), "Rust Faction 1.2.0");
    assert_eq!(build_version_string(""), "Rust Faction ");
}

#[test]
fn xml_override_decisions() {
    assert!(matches!(xml_override(OverrideRead::NotFound), XmlOverride::UseOriginal));
    assert!(matches!(xml_override(OverrideRead::Failed), XmlOverride::UseOriginal));
    match xml_override(OverrideRead::Found(String::from("<root/>"))) {
        XmlOverride::Parse { alloc_size, buffer } => {
            assert_eq!(alloc_size, 8);
            assert_eq!(buffer, b"<root/>\0".to_vec());
        }
        XmlOverride::UseOriginal => panic!("the override was read"),
    }
    match xml_override(OverrideRead::Found(String::new())) {
        XmlOverride::Parse { alloc_size, buffer } => {
            assert_eq!(alloc_size, 1);
            assert_eq!(buffer, vec![0]);
        }
        XmlOverride::UseOriginal => panic!("the override was read"),
    }
}

#[test]
fn memory_layout_detour() {
    let mut sizes = vec![10u32, 20, 1_146_000_000, 40];
    enlarge_mempool_provider(&mut sizes);
    assert_eq!(sizes, vec![10, 20, 1_346_000_000, 40]);
    assert_eq!(block_table_size(12, 24), 288);
    assert_eq!(block_table_size(0, 24), 0);
}

#[test]
fn c_strings() {
    assert_eq!(c_string_bytes("patch.dll"), Some(b"patch.dll\0".to_vec()));
    assert_eq!(c_string_bytes(""), Some(vec![0]));
    assert_eq!(c_string_bytes("a\0b"), None);
    assert_eq!(c_string_or_empty("Error"), b"Error\0".to_vec());
    assert_eq!(c_string_or_empty("bad\0text"), vec![0]);
}

#[test]
fn module_paths() {
    let mut buffer = vec![0u8; 260];
    buffer[..6].copy_from_slice(b"C:\\rfg");
    assert_eq!(module_path_bytes(buffer.clone(), 6), Some(b"C:\\rfg".to_vec()));
    assert_eq!(module_path_bytes(buffer.clone(), 0), None);
    assert_eq!(module_path_bytes(buffer.clone(), 260), None);
    assert_eq!(module_path_bytes(buffer, 259).map(|p| p.len()), Some(259));
}

#[test]
fn wide_messages() {
    assert_eq!(secondary_message_text("Hi"), vec![72, 105, 0]);
    assert_eq!(secondary_message_text(""), vec![0]);
    assert_eq!(secondary_message_text("\u{1F600}"), vec![0xD83D, 0xDE00, 0]);
    assert_eq!(secondary_message_text("ok\0"), vec![111, 107, 0]);
    let expected: Vec<u16> = "caf\u{e9} \u{10437}".encode_utf16().chain([0]).collect();
    assert_eq!(secondary_message_text("caf\u{e9} \u{10437}"), expected);
}

#[test]
fn game_enum_numbers() {
    assert_eq!(CFileSearchType::Unset.to_raw(), 0xFFFF);
    assert_eq!(CFileSearchType::PackFile.to_raw(), 1);
    assert_eq!(CFileSearchType::from_raw(2), Some(CFileSearchType::VDir));
    assert_eq!(CFileSearchType::from_raw(3), None);
    assert_eq!(VLibPlatform::Switch.to_raw(), 7);
    assert_eq!(VLibPlatform::from_raw(0xFFFF), Some(VLibPlatform::Unset));
    assert_eq!(VLibPlatform::from_raw(8), None);
    assert_eq!(CFileIOMediaType::Memory.to_raw(), 3);
    assert_eq!(CFileIOMediaType::from_raw(0), Some(CFileIOMediaType::Hdd));
    for raw in 0..10u32 {
        if let Some(v) = VLibPlatform::from_raw(raw) {
            assert_eq!(v.to_raw(), raw);
        }
    }
}

#[test]
fn launch_runs_every_stage_then_exits() {
    let mut stage = first_launch_stage();
    assert_eq!(stage, LaunchStage::CheckGameDirectory);
    let mut count = 1;
    loop {
        match launch_step(stage, true, false) {
            LaunchStep::Next(next) => {
                stage = next;
                count += 1;
            }
            LaunchStep::ExitLauncher => break,
            other => panic!("unexpected {:?}", other),
        }
    }
    assert_eq!(count, 10);
    assert_eq!(stage, LaunchStage::ResumeGame);
    assert_eq!(launch_step(LaunchStage::ResumeGame, true, true), LaunchStep::KeepLauncherOpen);
}

#[test]
fn launch_failures() {
    assert_eq!(
        launch_step(LaunchStage::CheckGameDirectory, false, false),
        LaunchStep::Failed(LaunchError::GameDirectoryMissing)
    );
    assert_eq!(
        launch_step(LaunchStage::CheckPatchDll, false, true),
        LaunchStep::Failed(LaunchError::PatchDllMissing)
    );
    assert_eq!(
        launch_step(LaunchStage::InjectPatch, false, false),
        LaunchStep::Failed(LaunchError::InjectionFailed)
    );
    assert_eq!(GAME_EXECUTABLE, "rfg.exe");
    assert_eq!(PATCH_DLL, "patch.dll");
}

#[test]
fn injection_stages() {
    let mut stage = first_inject_stage();
    let mut count = 1;
    while let InjectStep::Next(next) = inject_step(stage, true) {
        stage = next;
        count += 1;
    }
    assert_eq!(count, 8);
    assert_eq!(inject_step(InjectStage::StartRemoteThread, true), InjectStep::Injected);
    assert_eq!(
        inject_step(InjectStage::BuildPathString, false),
        InjectStep::Failed(InjectError::DllPathHasNul)
    );
    assert_eq!(
        inject_step(InjectStage::CheckLoadLibraryAddress, false),
        InjectStep::Failed(InjectError::LoadLibraryNull)
    );
}

#[test]
fn injected_path_bytes() {
    let payload = dll_path_payload("C:\\launcher\\patch.dll").unwrap();
    assert_eq!(payload.len(), "C:\\launcher\\patch.dll".len() + 1);
    assert_eq!(payload.last(), Some(&0));
    assert_eq!(dll_path_payload("bad\0path"), None);
}

#[test]
fn matchmaking_states_are_dropped() {
    assert!(!forwards_pushed_state(PushedState::MultiplayerSearchMatchmaking));
    assert!(!forwards_pushed_state(PushedState::MultiplayerChangeMatchmaking));
    assert!(forwards_pushed_state(PushedState::Other));
}

#[test]
fn module_path_as_text() {
    let mut buffer = vec![0u8; 16];
    buffer[..5].copy_from_slice(b"C:\\gm");
    assert_eq!(module_path_text(buffer.clone(), 5), Some(String::from("C:\\gm")));
    assert_eq!(module_path_text(buffer.clone(), 0), None);
    assert_eq!(module_path_text(buffer.clone(), 16), None);
    buffer[1] = 0xFF;
    assert_eq!(module_path_text(buffer, 3), Some(String::from("C\u{FFFD}\\")));
}

#[test]
fn a_second_set_wins() {
    let mut store = ConfigStore::new();
    let mut first = Config::default();
    first.fps_limit = 30;
    let mut second = Config::default();
    second.fps_limit = 144;
    Config::set(&mut store, first);
    Config::set(&mut store, second.clone());
    assert!(same(&Config::get(&store), &second));
}
