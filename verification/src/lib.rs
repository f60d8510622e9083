//! Background shell of a desktop companion: a verified model of the
//! event-orchestration and offline-capture subsystem.
//!
//! The library owns the decision logic: which windows become visible on
//! which action, how OS hotkey identifiers map to actions, how tray
//! interactions route, and how an idea capture degrades from the remote
//! gateway to the durable local log. The OS edges (HTTP, file system,
//! window handles, the hotkey event channel) live outside, in the thin
//! unverified binary that feeds this library plain values.

pub mod autostart;
pub mod capture;
pub mod hotkeys;
pub mod router;
pub mod text;
pub mod tray;
pub mod windows;
