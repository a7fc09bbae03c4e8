//! A dual-process supervisor library.
//!
//! The supervisor launches two shell commands, a long-running "run" command
//! and a side "check" command, relays their output with role-labeled
//! prefixes, watches for the first terminating condition under an asymmetric
//! race policy, and tears both processes down before exiting with a code
//! derived from the winner's status.
//!
//! This crate holds the verified decision logic of that supervisor: the
//! shell-invocation and kill-plan construction, the line labeling done by the
//! output pumps, the exit-race resolution policy with its exit-code
//! derivation, and the teardown bookkeeping that gates the supervisor's own
//! exit. The surrounding process, pipe and thread plumbing is ordinary
//! unverified code that drives these functions.

pub mod decimal;
pub mod pump;
pub mod race;
pub mod report;
pub mod role;
pub mod shell;
pub mod status;
pub mod teardown;
