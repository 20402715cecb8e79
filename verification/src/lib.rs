//! Round-based Byzantine consensus with epochs and checkpoints.
//!
//! The crate holds the decisions of a consensus node as state machines that
//! perform no input or output of their own. A state machine is handed one
//! input at a time; it updates its state and replies with the effects that its
//! surroundings must perform and with the question, if any, that it needs
//! answered before it can go on.

pub mod config;
pub mod consensus;
pub mod error;
pub mod helper;
pub mod keys;
pub mod laws;
pub mod messages;
pub mod model;
pub mod node;
pub mod proposer;
pub mod protocol;
pub mod wire;
