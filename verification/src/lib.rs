//! A desktop "health reminder" host: it persists one opaque settings blob at a
//! per-user path, drives a tray icon with a two-entry menu, hides the main
//! window on close instead of exiting, forwards notifications, and plays a
//! fallback notification sound on Windows.
//!
//! The host's decisions are verified here; the toolkit that owns the real
//! tray icon, window and event loop performs the resulting actions.

pub mod lifecycle;
pub mod notify;
pub mod settings;
pub mod sound;
