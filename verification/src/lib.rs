//! Verified core of a Tauri plugin that runs Bare JavaScript worklets.
//!
//! The native worklet runtime is driven from outside this crate: every
//! function here decides what must happen (which native calls to make, which
//! script to evaluate, which error to report) and hands that decision back as
//! plain values.
pub mod autolink;
pub mod commands;
pub mod decimal;
pub mod error;
pub mod events;
pub mod ipc;
pub mod models;
pub mod payload;
pub mod plugin;
pub mod script;
pub mod worklet;
