//! The core of a REST API for signal-cli: what is sent to the daemon, where its
//! messages go, how requests are answered, and how a daemon is started and
//! stopped. Sockets, channels, processes and clocks are left to the program
//! around it.

pub mod cli;
pub mod daemon;
pub mod http;
pub mod json;
pub mod jsonrpc;
pub mod laws;
pub mod routes;
pub mod state;
pub mod text;
