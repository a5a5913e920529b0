//! Verified core of a desktop keypress companion: a background event bridge
//! that classifies captured input and hands payloads to a foreground sink,
//! and a tray-driven lifecycle controller for the application window.

pub mod payload;
pub mod classify;
pub mod bridge;
pub mod tray;
pub mod commands;
