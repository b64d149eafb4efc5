//! Core of a two-stage launcher for a mod-loaded game session.
//!
//! The library holds the decision logic: settings parsing, conditional
//! manifest patching, argument assembly, and the bookkeeping around the
//! supervised child process. All file, console and process I/O stays with
//! the binaries that drive it; they hand plain values in and take plain
//! values back.

pub mod args;
pub mod config;
pub mod confirm;
pub mod errors;
pub mod manifest;
pub mod numfmt;
pub mod plan;
