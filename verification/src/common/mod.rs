//! What the launcher and the patch share: the settings and the text handed
//! to Win32 calls.
pub mod config;
pub mod utils;
