//! A shell session that runs each command in a fresh process while keeping the effect of
//! directory changes from one command to the next.
//!
//! - `shell_kind`: which interpreter the session drives, decided from the environment.
//! - `directory`: how a requested directory is resolved against the current one.
//! - `output`: what a command produced, and how captured lines become bytes.
//! - `session`: the session itself, which carries out directory changes and hands every
//!   other command back as the process to run.
//! - `error`: why a session could not be built.

pub mod directory;
pub mod error;
pub mod output;
pub mod session;
pub mod shell_kind;
