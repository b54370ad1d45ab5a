//! The decision core of a one-question command-line client for a chat-completion
//! service.
//!
//! - [`text`]: the fixed lines that the client writes.
//! - [`config`]: the engine and the timeout that the client is built with.
//! - [`cli`]: how a command line is read.
//! - [`client`]: how the client is built.
//! - [`session`]: one run as a machine, from the command line to the last line written.
//! - [`run`]: what holds of every run.

pub mod cli;
pub mod client;
pub mod config;
pub mod run;
pub mod session;
pub mod text;
