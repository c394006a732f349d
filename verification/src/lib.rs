//! Rust Faction: the verified core of a patch for Red Faction Guerrilla and of
//! its launcher.
//!
//! The library decides what the patch does to the game process (which
//! functions it detours and which bytes it writes, relative to the module
//! base), how the launcher's settings are kept, and the small decisions that
//! surround the Win32 calls of the launcher and the injected DLL. Performing
//! those calls is left to the program around the library.
pub mod common;
pub mod hooks;
pub mod launcher;
pub mod rfg;
pub mod utils;
