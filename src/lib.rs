//! A transport layer that runs one piece of network logic, an echo service
//! and its client probe, over plain TCP or over TLS.
//!
//! The library holds the decisions: configuration checks, credential setup
//! for the TLS variant, and the echo handler, server loop and client probe as
//! state machines. The loops that perform the I/O drive these machines.
use vstd::prelude::*;

pub mod config;
pub mod echo;
pub mod error;
pub mod laws;
pub mod probe;
pub mod selector;
pub mod server;
pub mod tls;

verus! {

/// The plaintext variant: connections are raw TCP streams, and it carries no
/// state of its own.
pub struct TcpTransport {}

impl TcpTransport {
    pub fn new() -> (r: TcpTransport)
        ensures
            r == (TcpTransport {}),
    {
        TcpTransport {}
    }
}

} // verus!
