//! Verified core of a per-application volume controller.
//!
//! The volume keys act on the audio session of whichever application owns
//! keyboard focus. This crate holds the decisions: which session a key press
//! targets, how fast a burst of presses accelerates, and which level is
//! written back. Fractional quantities are fixed-point integers counted in
//! millionths, so that every rule here is stated and proved over integers.

pub mod acceleration;
pub mod error;
pub mod focus;
pub mod handler;
pub mod keys;
pub mod level;
pub mod sessions;
pub mod tray;
