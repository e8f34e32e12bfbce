//! Decision logic of a small Windows desktop utility: the settings model,
//! the settings load/save procedures, the cursor hider, the desktop
//! double-click detector and the tray window's message handling.
//!
//! Everything that touches the operating system (files, the registry,
//! Win32 calls, threads, clocks) is done by the program around this library;
//! it hands the results of that work to the functions here as plain values
//! and performs the actions they return.

pub mod config;
pub mod cursor_hider;
pub mod desktop;
pub mod tray;

pub use config::{AppConfig, CursorHiderConfig, FeatureFlags};
