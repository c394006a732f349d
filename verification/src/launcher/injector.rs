//! The decisions of injecting the patch DLL into the suspended game: the
//! bytes written into the game process and the order of the Win32 calls.
use vstd::prelude::*;
use vstd::utf8::encode_utf8;
use crate::common::utils::{c_string_bytes, nul_free};

verus! {

/// The stages of an injection, in the order they run.
#[derive(Clone, Copy, Debug, PartialEq, Eq, Structural)]
pub enum InjectStage {
    /// The DLL's path names an existing file.
    CheckDllPath,
    /// The DLL's path makes a C string.
    BuildPathString,
    /// Memory for the path is allocated in the game process.
    AllocateRemoteMemory,
    /// The path is written into that memory.
    WriteDllPath,
    /// kernel32.dll is found.
    FindKernel32,
    /// LoadLibraryA is found in it.
    FindLoadLibrary,
    /// The address of LoadLibraryA is not zero.
    CheckLoadLibraryAddress,
    /// A thread of the game process runs LoadLibraryA on the path.
    StartRemoteThread,
}

/// Why an injection failed: the stage that failed.
#[derive(Clone, Copy, Debug, PartialEq, Eq, Structural)]
pub enum InjectError {
    DllPathMissing,
    DllPathHasNul,
    AllocationFailed,
    WriteFailed,
    Kernel32Missing,
    LoadLibraryMissing,
    LoadLibraryNull,
    RemoteThreadFailed,
}

/// What comes after a stage of the injection.
#[derive(Clone, Copy, Debug, PartialEq, Eq, Structural)]
pub enum InjectStep {
    Next(InjectStage),
    Failed(InjectError),
    Injected,
}

/// The position of a stage in the injection, from 0.
pub open spec fn inject_stage_index(stage: InjectStage) -> nat {
    match stage {
        InjectStage::CheckDllPath => 0,
        InjectStage::BuildPathString => 1,
        InjectStage::AllocateRemoteMemory => 2,
        InjectStage::WriteDllPath => 3,
        InjectStage::FindKernel32 => 4,
        InjectStage::FindLoadLibrary => 5,
        InjectStage::CheckLoadLibraryAddress => 6,
        InjectStage::StartRemoteThread => 7,
    }
}

/// What comes after `stage`, given whether it succeeded: its error where it
/// failed; else the next stage; after the last one the DLL is injected.
pub open spec fn inject_transition(stage: InjectStage, succeeded: bool) -> InjectStep {
    match stage {
        InjectStage::CheckDllPath => if succeeded {
            InjectStep::Next(InjectStage::BuildPathString)
        } else {
            InjectStep::Failed(InjectError::DllPathMissing)
        },
        InjectStage::BuildPathString => if succeeded {
            InjectStep::Next(InjectStage::AllocateRemoteMemory)
        } else {
            InjectStep::Failed(InjectError::DllPathHasNul)
        },
        InjectStage::AllocateRemoteMemory => if succeeded {
            InjectStep::Next(InjectStage::WriteDllPath)
        } else {
            InjectStep::Failed(InjectError::AllocationFailed)
        },
        InjectStage::WriteDllPath => if succeeded {
            InjectStep::Next(InjectStage::FindKernel32)
        } else {
            InjectStep::Failed(InjectError::WriteFailed)
        },
        InjectStage::FindKernel32 => if succeeded {
            InjectStep::Next(InjectStage::FindLoadLibrary)
        } else {
            InjectStep::Failed(InjectError::Kernel32Missing)
        },
        InjectStage::FindLoadLibrary => if succeeded {
            InjectStep::Next(InjectStage::CheckLoadLibraryAddress)
        } else {
            InjectStep::Failed(InjectError::LoadLibraryMissing)
        },
        InjectStage::CheckLoadLibraryAddress => if succeeded {
            InjectStep::Next(InjectStage::StartRemoteThread)
        } else {
            InjectStep::Failed(InjectError::LoadLibraryNull)
        },
        InjectStage::StartRemoteThread => if succeeded {
            InjectStep::Injected
        } else {
            InjectStep::Failed(InjectError::RemoteThreadFailed)
        },
    }
}

/// The stage an injection starts with.
pub fn first_inject_stage() -> (stage: InjectStage)
    ensures
        inject_stage_index(stage) == 0,
{
    InjectStage::CheckDllPath
}

/// Decides what comes after a stage of the injection.
pub fn inject_step(stage: InjectStage, succeeded: bool) -> (step: InjectStep)
    ensures
        step == inject_transition(stage, succeeded),
{
    match stage {
        InjectStage::CheckDllPath => if succeeded {
            InjectStep::Next(InjectStage::BuildPathString)
        } else {
            InjectStep::Failed(InjectError::DllPathMissing)
        },
        InjectStage::BuildPathString => if succeeded {
            InjectStep::Next(InjectStage::AllocateRemoteMemory)
        } else {
            InjectStep::Failed(InjectError::DllPathHasNul)
        },
        InjectStage::AllocateRemoteMemory => if succeeded {
            InjectStep::Next(InjectStage::WriteDllPath)
        } else {
            InjectStep::Failed(InjectError::AllocationFailed)
        },
        InjectStage::WriteDllPath => if succeeded {
            InjectStep::Next(InjectStage::FindKernel32)
        } else {
            InjectStep::Failed(InjectError::WriteFailed)
        },
        InjectStage::FindKernel32 => if succeeded {
            InjectStep::Next(InjectStage::FindLoadLibrary)
        } else {
            InjectStep::Failed(InjectError::Kernel32Missing)
        },
        InjectStage::FindLoadLibrary => if succeeded {
            InjectStep::Next(InjectStage::CheckLoadLibraryAddress)
        } else {
            InjectStep::Failed(InjectError::LoadLibraryMissing)
        },
        InjectStage::CheckLoadLibraryAddress => if succeeded {
            InjectStep::Next(InjectStage::StartRemoteThread)
        } else {
            InjectStep::Failed(InjectError::LoadLibraryNull)
        },
        InjectStage::StartRemoteThread => if succeeded {
            InjectStep::Injected
        } else {
            InjectStep::Failed(InjectError::RemoteThreadFailed)
        },
    }
}

/// The bytes written into the game process: the DLL's path with its
/// terminating nul, as `LoadLibraryA` reads it; nothing where the path holds
/// a nul. Their number is the size of the allocation.
pub fn dll_path_payload(dll_path: &str) -> (payload: Option<Vec<u8>>)
    ensures
        payload is Some <==> nul_free(encode_utf8(dll_path@)),
        payload matches Some(p) ==> p@ == encode_utf8(dll_path@).push(0u8)
            && p@.len() == encode_utf8(dll_path@).len() + 1,
{
    c_string_bytes(dll_path)
}

/// The stages of an injection run in order, each at most once, and any
/// failure ends it.
pub proof fn lemma_inject_stages_in_order(stage: InjectStage)
    ensures
        inject_transition(stage, true) matches InjectStep::Next(next)
            ==> inject_stage_index(next) == inject_stage_index(stage) + 1,
        inject_transition(stage, true) is Injected <==> inject_stage_index(stage) == 7,
        inject_transition(stage, false) is Failed,
{
}

/// An injection checks that the DLL exists, makes the C string of its path,
/// allocates memory in the game, writes the path there, finds kernel32.dll,
/// finds LoadLibraryA, checks its address is not zero and starts the remote
/// thread, in this order; each stage that fails ends it with its own error.
pub proof fn lemma_inject_order()
    ensures
        inject_transition(InjectStage::CheckDllPath, true) == InjectStep::Next(InjectStage::BuildPathString),
        inject_transition(InjectStage::CheckDllPath, false) == InjectStep::Failed(InjectError::DllPathMissing),
        inject_transition(InjectStage::BuildPathString, true) == InjectStep::Next(InjectStage::AllocateRemoteMemory),
        inject_transition(InjectStage::BuildPathString, false) == InjectStep::Failed(InjectError::DllPathHasNul),
        inject_transition(InjectStage::AllocateRemoteMemory, true) == InjectStep::Next(InjectStage::WriteDllPath),
        inject_transition(InjectStage::AllocateRemoteMemory, false) == InjectStep::Failed(InjectError::AllocationFailed),
        inject_transition(InjectStage::WriteDllPath, true) == InjectStep::Next(InjectStage::FindKernel32),
        inject_transition(InjectStage::WriteDllPath, false) == InjectStep::Failed(InjectError::WriteFailed),
        inject_transition(InjectStage::FindKernel32, true) == InjectStep::Next(InjectStage::FindLoadLibrary),
        inject_transition(InjectStage::FindKernel32, false) == InjectStep::Failed(InjectError::Kernel32Missing),
        inject_transition(InjectStage::FindLoadLibrary, true) == InjectStep::Next(InjectStage::CheckLoadLibraryAddress),
        inject_transition(InjectStage::FindLoadLibrary, false) == InjectStep::Failed(InjectError::LoadLibraryMissing),
        inject_transition(InjectStage::CheckLoadLibraryAddress, true) == InjectStep::Next(InjectStage::StartRemoteThread),
        inject_transition(InjectStage::CheckLoadLibraryAddress, false) == InjectStep::Failed(InjectError::LoadLibraryNull),
        inject_transition(InjectStage::StartRemoteThread, true) == InjectStep::Injected,
        inject_transition(InjectStage::StartRemoteThread, false) == InjectStep::Failed(InjectError::RemoteThreadFailed),
{
}

} // verus!
