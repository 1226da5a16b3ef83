//! Control-plane core of a Wayland compositor: the state that one thread owns,
//! and the rules by which outside requests change it.
//!
//! Nothing here performs I/O. Handles to transports, processes and event
//! sources are plain identifiers; a function that decides that something
//! outside has to happen returns that decision to its caller.

pub mod api;
pub mod channel;
pub mod client;
pub mod command;
pub mod config;
pub mod expand;
pub mod input;
pub mod keys;
pub mod output;
pub mod sequences;
pub mod state;
pub mod tag;
pub mod window;
