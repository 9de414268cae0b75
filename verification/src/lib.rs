//! Harness for watching a shell command: a persistent shell session protocol
//! with sentinel-delimited output capture, a command runner that schedules
//! repeated invocations on a cadence, and the typed events it emits.

pub mod capture;
pub mod config;
pub mod errors;
pub mod events;
pub mod query;
pub mod runner;
pub mod sentinel;
