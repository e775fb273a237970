//! The core of a command-line client for a remote torrent service: the
//! store of sessions, the requests that each command sends, what it prints
//! for each answer, and the view that refreshes the list of torrents.
//!
//! Nothing here reads or writes: every function takes plain values and
//! returns plain values, and the program around it does the input and
//! output.

pub mod backend;
pub mod cli;
pub mod cli_handler;
pub mod config;
pub mod error;
pub mod text;
