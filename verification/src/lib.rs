//! Core logic of a sandboxed process launcher.
//!
//! Given a fully resolved sandbox policy, a working directory, and a target
//! command line, the launcher irreversibly restricts the privileges of the
//! calling thread and then replaces the current process image with the
//! target program. This crate holds the launcher's decision logic: the
//! staged setup-then-exec protocol, its invariants, and its failure
//! taxonomy. The host binary performs the operating-system calls (applying
//! the policy, replacing the image) and drives the state machine defined
//! here with their outcomes.

pub mod encoding;
pub mod errors;
pub mod invocation;
pub mod launcher;
