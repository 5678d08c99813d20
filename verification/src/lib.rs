//! Core of a local reference-counting daemon.
//!
//! A single shared, non-negative count is mutated by concurrent client
//! sessions; an external "start" action must run exactly when the count
//! leaves zero and an external "end" action exactly when it returns to
//! zero.  This crate holds the verified state machine, the rule deciding
//! whether a command run counted as a success, the session byte-protocol,
//! and a trace model with proofs of the counting and edge-triggering laws.
//! Process plumbing (sockets, subprocesses, locks, threads) lives outside.

pub mod command;
pub mod counter;
pub mod model;
pub mod session;
