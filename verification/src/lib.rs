//! Plugin loading and dispatch for a clipboard watcher.
//!
//! The library verifies the host side of a plugin system: a plugin's
//! compatibility declaration is checked before its code is trusted, accepted
//! plugins are collected in load order, and clipboard-change events are
//! dispatched to the collection with first-match-wins semantics.

pub mod amazon;
pub mod config;
pub mod contract;
pub mod installer;
pub mod platform;
pub mod plugin;
pub mod replace;
pub mod watcher;
