//! Event detection and remapping for a multi-button USB gaming keypad.
//!
//! The library turns raw interrupt reports into per-button press and release
//! events, resolves each event against a paged binding table, and says which
//! virtual keyboard operations each event calls for.

pub mod key;
pub mod constants;
pub mod tracker;
pub mod action;
pub mod profile;
pub mod device;
pub mod config;
