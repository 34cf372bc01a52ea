//! The logic of a desktop application shell that keeps one helper process
//! (a "sidecar") alive beside it.
//!
//! The shell itself, with its windows, its lock and its child processes, is
//! the host. This library holds what the host decides from:
//!
//! - [`supervisor`]: the slot for the helper's handle, and when a helper may
//!   be launched, kept or taken out;
//! - [`shutdown`]: how a helper that has left the slot is brought down;
//! - [`relay`]: what becomes of each thing the helper prints;
//! - [`laws`]: what holds of every run of the three;
//! - [`http`] and [`greeting`]: the shell's other commands.
//!
//! Nothing here starts, writes to or kills a process. Each operation takes
//! what the host has seen and answers with what the host is to do next.

pub mod error;
pub mod greeting;
pub mod http;
pub mod laws;
pub mod relay;
pub mod shutdown;
pub mod supervisor;
pub mod text;
