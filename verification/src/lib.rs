//! The decisions of `codex-relay`, which bridges ChatGPT remote control to a
//! Codex app-server subprocess.
//!
//! What the relay decides stands here, proved; what it does to the world (files,
//! processes, sockets, the clock) is left to its callers.  Where doing and
//! deciding alternate, a function takes an event and says what to do next.

pub mod bridge;
pub mod child;
pub mod cli;
pub mod command_line;
pub mod connection;
pub mod diagnostics;
pub mod homes;
pub mod installation;
pub mod json;
pub mod login;
pub mod message;
pub mod pairing;
pub mod relay;
pub mod text;
