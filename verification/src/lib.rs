//! The core of a screen marker that is drawn above all other windows by a
//! disposable overlay process and controlled from a settings window in a
//! long-lived controller process.
//!
//! This crate holds what the two processes decide and compute: the settings
//! record and the window geometry derived from it, the line protocol that
//! carries settings from controller to overlay, the supervision of the
//! overlay process, the tray flags, the lifecycle of the controller, and the
//! requests made to the native window system. It performs no input or
//! output: every function takes what was observed and returns what is to be
//! done.

pub mod channel;
pub mod config;
pub mod icon;
pub mod ipc;
pub mod overlay;
pub mod panel;
pub mod platform;
pub mod tray;
