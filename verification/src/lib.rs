//! Planning of terminal-multiplexer development sessions.
//!
//! The library turns a declarative description of a session into the ordered
//! list of actions that realise it. It never runs a command itself: a caller
//! performs the actions and reports back the facts the plan depends on.

pub mod text;
pub mod environment;
pub mod config;
pub mod action;
pub mod orchestrator;
pub mod laws;
pub mod cli;
pub mod expand;
