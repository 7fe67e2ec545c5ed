//! Core of a branching-dialogue engine: a validated directed graph built from
//! a flat authored script, traversed through a cursor-based state machine.

pub mod conversation;
pub mod errors;
pub mod events;
pub mod graph;
pub mod laws;
pub mod loader;
pub mod script;
pub mod talker;
