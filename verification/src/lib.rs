//! A command-oriented update-dispatch loop for a chat-bot style service.
//!
//! The library consumes a stream of inbound update envelopes, filters to
//! text messages beginning with a recognized command marker, parses them
//! into a typed command value, and routes them to a caller-supplied handler
//! with a per-dispatch dependency registry. Handler failures are isolated
//! per dispatch; a cooperative shutdown signal drains in-flight work.
//!
//! `command` classifies message text against the caller's declared command
//! set; `registry` assembles and binds the per-dispatch dependencies;
//! `orchestrator` is the loop's state machine, deciding what an unverified
//! runtime must do with each pulled item; `session` runs that machine over
//! a whole scripted source and proves the loop's guarantees of the run's
//! trace; `types` holds the plain data and the error taxonomy.

use vstd::prelude::*;

pub mod command;
pub mod orchestrator;
pub mod registry;
pub mod session;
pub mod types;

verus! {

/// The leading byte that marks a command inside message text: the slash.
pub const COMMAND_MARKER: u8 = 47u8;

} // verus!
