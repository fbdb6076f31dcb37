//! Supervision of a local server process.
//!
//! The library decides where the application's server is found: at a
//! configured URL, at a server that already listens on the local port, or
//! at one that it has spawned and watched until it answered. It hands the
//! result to every consumer through a single-assignment cell, keeps the
//! child's output in a bounded log and sees to it that the child is killed
//! on exit. All outside work (requests, dialogs, processes, clocks) is left
//! to the caller, which reports what happened and is told what to do next.

pub mod cli;
pub mod command;
pub mod credential;
pub mod health;
pub mod hostname;
pub mod log_ring;
pub mod port;
pub mod readiness;
pub mod registrar;
pub mod supervisor;
pub mod text;
pub mod traces;
