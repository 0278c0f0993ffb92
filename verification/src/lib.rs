//! A multi-host static HTTP/1.1 server library.
//!
//! For each subdirectory of a content root the server binds a hostname/port
//! pair and serves files from that subdirectory, rejecting requests that
//! would escape it. This crate holds the connection-handling engine: the
//! incremental request reader with its adaptive header-table growth, the
//! resource-resolution rules that enforce the filesystem sandbox, and the
//! response renderer. Socket, filesystem and thread plumbing live with the
//! binary that embeds the library.

pub mod connection;
pub mod http;
pub mod parser;
pub mod reader;
pub mod static_server;
pub mod utils;

use vstd::prelude::*;

verus! {

/// Process-wide configuration, loaded once at startup and shared read-only
/// by every host for its lifetime.
#[derive(Clone)]
pub struct Config {
    /// Directory whose immediate subdirectories are the hosted domains.
    pub directory: String,
    /// Port under which content is served.
    pub port: u16,
    /// How long to keep a TCP connection active, in seconds.
    pub keep_alive: u8,
    /// Maximal number of headers included in a request.
    pub max_headers_number: usize,
    /// How many concurrent requests one host can handle.
    pub threads_per_connection: u8,
}

} // verus!
