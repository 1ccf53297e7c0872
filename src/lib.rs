//! Lifecycle of GPIO lines driven through a kernel pin-control interface:
//! guarded sessions that always release an exported line, a registry that
//! keeps one owner per line, blink schedules, command-line argument decoding,
//! level watching and the release-number check.

pub mod args;
pub mod blink;
pub mod pin;
pub mod poll;
pub mod registry;
pub mod session;
pub mod version;
