//! Supervisor core for a long-running worker daemon.
//!
//! The library keeps at most one worker process alive per logical account:
//! it validates a launch configuration, builds the worker's argument vector,
//! decides when a spawn may proceed (port preflight, stopping a prior
//! worker), drives the graceful-then-forced shutdown escalation, and keeps
//! an append-only buffer of captured output lines.
//!
//! All decisions live here as verified transitions over an explicit state
//! machine; the surrounding binary performs the operating-system work
//! (binding ports, spawning and killing processes, reading pipes, sleeping)
//! and reports each outcome back as an event.

pub mod config;
pub mod db;
pub mod errors;
pub mod logs;
pub mod ports;
pub mod supervisor;
