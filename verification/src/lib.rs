//! A sans-I/O engine that provisions and maintains a dotfiles environment.
//!
//! The library decides; a host performs. Every operation is a small state
//! machine: it names the next thing the host has to do (run a program, look
//! at a directory, call into the version-control library), takes the host's
//! answer as a plain value, and ends with one status line.

pub mod backend;
pub mod batch;
pub mod controller;
pub mod host;
pub mod stow;
pub mod sync;
pub mod text;
