//! The launcher's decisions: the checks before the game starts, in order,
//! and what becomes of the launcher once the game runs.
//!
//! Each stage is a check or a Win32 call that the program around the library
//! performs; it reports whether the stage succeeded, and the library says
//! what comes next.
use vstd::prelude::*;

pub mod injector;

verus! {

/// The name of the game's executable in the game folder.
pub const GAME_EXECUTABLE: &'static str = "rfg.exe";

/// The name of the patch DLL in the launcher's folder.
pub const PATCH_DLL: &'static str = "patch.dll";

/// The stages of launching the game, in the order they run.
#[derive(Clone, Copy, Debug, PartialEq, Eq, Structural)]
pub enum LaunchStage {
    /// The configured game folder exists.
    CheckGameDirectory,
    /// The game folder holds the game's executable.
    CheckGameExecutable,
    /// The path of the launcher's own executable is known.
    FindLauncherExecutable,
    /// The folder of the launcher's executable is known.
    FindLauncherDirectory,
    /// The launcher's folder holds the patch DLL.
    CheckPatchDll,
    /// The game executable's path is valid Unicode.
    ConvertGamePath,
    /// The game process is created, suspended.
    CreateGameProcess,
    /// The patch DLL's path is valid Unicode.
    ConvertPatchPath,
    /// The patch DLL is injected into the game process.
    InjectPatch,
    /// The game's main thread is resumed.
    ResumeGame,
}

/// Why a launch failed: the stage that failed.
#[derive(Clone, Copy, Debug, PartialEq, Eq, Structural)]
pub enum LaunchError {
    GameDirectoryMissing,
    GameExecutableMissing,
    LauncherPathUnknown,
    LauncherDirectoryUnknown,
    PatchDllMissing,
    GamePathInvalid,
    GameProcessFailed,
    PatchPathInvalid,
    InjectionFailed,
    ResumeFailed,
}

/// What comes after a stage.
#[derive(Clone, Copy, Debug, PartialEq, Eq, Structural)]
pub enum LaunchStep {
    /// Run this stage next.
    Next(LaunchStage),
    /// The launch failed; the launcher shows the error and stays open.
    Failed(LaunchError),
    /// The game runs; the launcher exits.
    ExitLauncher,
    /// The game runs; the launcher stays open, as the settings ask.
    KeepLauncherOpen,
}

/// The position of a stage in the launch, from 0.
pub open spec fn launch_stage_index(stage: LaunchStage) -> nat {
    match stage {
        LaunchStage::CheckGameDirectory => 0,
        LaunchStage::CheckGameExecutable => 1,
        LaunchStage::FindLauncherExecutable => 2,
        LaunchStage::FindLauncherDirectory => 3,
        LaunchStage::CheckPatchDll => 4,
        LaunchStage::ConvertGamePath => 5,
        LaunchStage::CreateGameProcess => 6,
        LaunchStage::ConvertPatchPath => 7,
        LaunchStage::InjectPatch => 8,
        LaunchStage::ResumeGame => 9,
    }
}

/// The stage after `stage`, if it is not the last.
pub open spec fn launch_stage_after(stage: LaunchStage) -> Option<LaunchStage> {
    match stage {
        LaunchStage::CheckGameDirectory => Some(LaunchStage::CheckGameExecutable),
        LaunchStage::CheckGameExecutable => Some(LaunchStage::FindLauncherExecutable),
        LaunchStage::FindLauncherExecutable => Some(LaunchStage::FindLauncherDirectory),
        LaunchStage::FindLauncherDirectory => Some(LaunchStage::CheckPatchDll),
        LaunchStage::CheckPatchDll => Some(LaunchStage::ConvertGamePath),
        LaunchStage::ConvertGamePath => Some(LaunchStage::CreateGameProcess),
        LaunchStage::CreateGameProcess => Some(LaunchStage::ConvertPatchPath),
        LaunchStage::ConvertPatchPath => Some(LaunchStage::InjectPatch),
        LaunchStage::InjectPatch => Some(LaunchStage::ResumeGame),
        LaunchStage::ResumeGame => None,
    }
}

/// The error of a failed stage.
pub open spec fn launch_stage_error(stage: LaunchStage) -> LaunchError {
    match stage {
        LaunchStage::CheckGameDirectory => LaunchError::GameDirectoryMissing,
        LaunchStage::CheckGameExecutable => LaunchError::GameExecutableMissing,
        LaunchStage::FindLauncherExecutable => LaunchError::LauncherPathUnknown,
        LaunchStage::FindLauncherDirectory => LaunchError::LauncherDirectoryUnknown,
        LaunchStage::CheckPatchDll => LaunchError::PatchDllMissing,
        LaunchStage::ConvertGamePath => LaunchError::GamePathInvalid,
        LaunchStage::CreateGameProcess => LaunchError::GameProcessFailed,
        LaunchStage::ConvertPatchPath => LaunchError::PatchPathInvalid,
        LaunchStage::InjectPatch => LaunchError::InjectionFailed,
        LaunchStage::ResumeGame => LaunchError::ResumeFailed,
    }
}

/// What comes after `stage`, given whether it succeeded: its error where it
/// failed; else the next stage; after the last stage, the launcher exits
/// unless the settings keep it open.
pub open spec fn launch_transition(stage: LaunchStage, succeeded: bool, keep_launcher_open: bool) -> LaunchStep {
    if !succeeded {
        LaunchStep::Failed(launch_stage_error(stage))
    } else {
        match launch_stage_after(stage) {
            Some(next) => LaunchStep::Next(next),
            None => if keep_launcher_open {
                LaunchStep::KeepLauncherOpen
            } else {
                LaunchStep::ExitLauncher
            },
        }
    }
}

/// The stage a launch starts with.
pub fn first_launch_stage() -> (stage: LaunchStage)
    ensures
        launch_stage_index(stage) == 0,
{
    LaunchStage::CheckGameDirectory
}

/// Decides what comes after `stage`.
pub fn launch_step(stage: LaunchStage, succeeded: bool, keep_launcher_open: bool) -> (step: LaunchStep)
    ensures
        step == launch_transition(stage, succeeded, keep_launcher_open),
{
    if !succeeded {
        return LaunchStep::Failed(
            match stage {
                LaunchStage::CheckGameDirectory => LaunchError::GameDirectoryMissing,
                LaunchStage::CheckGameExecutable => LaunchError::GameExecutableMissing,
                LaunchStage::FindLauncherExecutable => LaunchError::LauncherPathUnknown,
                LaunchStage::FindLauncherDirectory => LaunchError::LauncherDirectoryUnknown,
                LaunchStage::CheckPatchDll => LaunchError::PatchDllMissing,
                LaunchStage::ConvertGamePath => LaunchError::GamePathInvalid,
                LaunchStage::CreateGameProcess => LaunchError::GameProcessFailed,
                LaunchStage::ConvertPatchPath => LaunchError::PatchPathInvalid,
                LaunchStage::InjectPatch => LaunchError::InjectionFailed,
                LaunchStage::ResumeGame => LaunchError::ResumeFailed,
            },
        );
    }
    match stage {
        LaunchStage::CheckGameDirectory => LaunchStep::Next(LaunchStage::CheckGameExecutable),
        LaunchStage::CheckGameExecutable => LaunchStep::Next(LaunchStage::FindLauncherExecutable),
        LaunchStage::FindLauncherExecutable => LaunchStep::Next(LaunchStage::FindLauncherDirectory),
        LaunchStage::FindLauncherDirectory => LaunchStep::Next(LaunchStage::CheckPatchDll),
        LaunchStage::CheckPatchDll => LaunchStep::Next(LaunchStage::ConvertGamePath),
        LaunchStage::ConvertGamePath => LaunchStep::Next(LaunchStage::CreateGameProcess),
        LaunchStage::CreateGameProcess => LaunchStep::Next(LaunchStage::ConvertPatchPath),
        LaunchStage::ConvertPatchPath => LaunchStep::Next(LaunchStage::InjectPatch),
        LaunchStage::InjectPatch => LaunchStep::Next(LaunchStage::ResumeGame),
        LaunchStage::ResumeGame => if keep_launcher_open {
            LaunchStep::KeepLauncherOpen
        } else {
            LaunchStep::ExitLauncher
        },
    }
}

/// The stages of a launch run in order, each at most once: every stage
/// moves on to the stage of the next position, and only the last ends the
/// launch with the game running.
pub proof fn lemma_launch_stages_in_order(stage: LaunchStage, keep_launcher_open: bool)
    ensures
        launch_transition(stage, true, keep_launcher_open) matches LaunchStep::Next(next)
            ==> launch_stage_index(next) == launch_stage_index(stage) + 1,
        launch_transition(stage, true, keep_launcher_open) is Next <==> launch_stage_index(stage) < 9,
        launch_transition(stage, false, keep_launcher_open) is Failed,
{
}

/// A launch checks, in order: the game folder, the game executable, the
/// launcher's own path and folder, the patch DLL, the game path's text,
/// then creates the game process, checks the DLL path's text, injects the
/// patch and resumes the game; each stage that fails ends the launch with
/// its own error, and after the last the launcher exits unless the settings
/// keep it open.
pub proof fn lemma_launch_order(keep_launcher_open: bool)
    ensures
        launch_transition(LaunchStage::CheckGameDirectory, true, keep_launcher_open) == LaunchStep::Next(LaunchStage::CheckGameExecutable),
        launch_transition(LaunchStage::CheckGameDirectory, false, keep_launcher_open) == LaunchStep::Failed(LaunchError::GameDirectoryMissing),
        launch_transition(LaunchStage::CheckGameExecutable, true, keep_launcher_open) == LaunchStep::Next(LaunchStage::FindLauncherExecutable),
        launch_transition(LaunchStage::CheckGameExecutable, false, keep_launcher_open) == LaunchStep::Failed(LaunchError::GameExecutableMissing),
        launch_transition(LaunchStage::FindLauncherExecutable, true, keep_launcher_open) == LaunchStep::Next(LaunchStage::FindLauncherDirectory),
        launch_transition(LaunchStage::FindLauncherExecutable, false, keep_launcher_open) == LaunchStep::Failed(LaunchError::LauncherPathUnknown),
        launch_transition(LaunchStage::FindLauncherDirectory, true, keep_launcher_open) == LaunchStep::Next(LaunchStage::CheckPatchDll),
        launch_transition(LaunchStage::FindLauncherDirectory, false, keep_launcher_open) == LaunchStep::Failed(LaunchError::LauncherDirectoryUnknown),
        launch_transition(LaunchStage::CheckPatchDll, true, keep_launcher_open) == LaunchStep::Next(LaunchStage::ConvertGamePath),
        launch_transition(LaunchStage::CheckPatchDll, false, keep_launcher_open) == LaunchStep::Failed(LaunchError::PatchDllMissing),
        launch_transition(LaunchStage::ConvertGamePath, true, keep_launcher_open) == LaunchStep::Next(LaunchStage::CreateGameProcess),
        launch_transition(LaunchStage::ConvertGamePath, false, keep_launcher_open) == LaunchStep::Failed(LaunchError::GamePathInvalid),
        launch_transition(LaunchStage::CreateGameProcess, true, keep_launcher_open) == LaunchStep::Next(LaunchStage::ConvertPatchPath),
        launch_transition(LaunchStage::CreateGameProcess, false, keep_launcher_open) == LaunchStep::Failed(LaunchError::GameProcessFailed),
        launch_transition(LaunchStage::ConvertPatchPath, true, keep_launcher_open) == LaunchStep::Next(LaunchStage::InjectPatch),
        launch_transition(LaunchStage::ConvertPatchPath, false, keep_launcher_open) == LaunchStep::Failed(LaunchError::PatchPathInvalid),
        launch_transition(LaunchStage::InjectPatch, true, keep_launcher_open) == LaunchStep::Next(LaunchStage::ResumeGame),
        launch_transition(LaunchStage::InjectPatch, false, keep_launcher_open) == LaunchStep::Failed(LaunchError::InjectionFailed),
        launch_transition(LaunchStage::ResumeGame, false, keep_launcher_open) == LaunchStep::Failed(LaunchError::ResumeFailed),
        launch_transition(LaunchStage::ResumeGame, true, true) == LaunchStep::KeepLauncherOpen,
        launch_transition(LaunchStage::ResumeGame, true, false) == LaunchStep::ExitLauncher,
{
}

} // verus!
