//! Types and data of the game itself.
pub mod file;
pub mod hud;
