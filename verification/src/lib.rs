//! The logic of a screen magnifier with a screen reader: its settings, the
//! capture of a monitor, the overlay window and its docked panel, and what is
//! spoken.
//!
//! The calls to the system are up to the program around this library. It
//! performs what the functions here decide and tells them what came of it.

pub mod appbar;
pub mod capture;
pub mod duplication;
pub mod geometry;
pub mod gfx;
pub mod hotkey;
pub mod inbox;
pub mod outputs;
pub mod overlay;
pub mod overlay_laws;
pub mod renderer;
pub mod settings;
pub mod shared;
pub mod state;
pub mod tick;
pub mod tts;
