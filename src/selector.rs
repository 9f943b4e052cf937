use vstd::prelude::*;

use crate::error::TransportError;

verus! {

/// Which of the two transport variants the process runs on.
#[derive(Clone, Copy, Debug, PartialEq, Eq, Structural)]
pub enum TransportKind {
    Tcp,
    Tls,
}

/// Whether the process serves echoes or probes a server.
#[derive(Clone, Copy, Debug, PartialEq, Eq, Structural)]
pub enum Mode {
    Serve,
    Client,
}

/// The transport that a selector names, if it names one.
pub open spec fn spec_transport_kind(s: Seq<char>) -> Option<TransportKind> {
    if s == "tcp"@ {
        Some(TransportKind::Tcp)
    } else if s == "tls"@ {
        Some(TransportKind::Tls)
    } else {
        None
    }
}

/// The mode that a selector names, if it names one.
pub open spec fn spec_mode(s: Seq<char>) -> Option<Mode> {
    if s == "serve"@ {
        Some(Mode::Serve)
    } else if s == "client"@ {
        Some(Mode::Client)
    } else {
        None
    }
}

/// Reads the transport selector: `tcp` or `tls`, anything else is refused.
pub fn parse_transport(s: &String) -> (r: Result<TransportKind, TransportError>)
    ensures
        match spec_transport_kind(s@) {
            Some(k) => r == Ok::<TransportKind, TransportError>(k),
            None => r == Err::<TransportKind, TransportError>(TransportError::UnknownTransport),
        },
{
    let tcp = "tcp".to_owned();
    let tls = "tls".to_owned();
    if *s == tcp {
        Ok(TransportKind::Tcp)
    } else if *s == tls {
        Ok(TransportKind::Tls)
    } else {
        Err(TransportError::UnknownTransport)
    }
}

/// Reads the mode selector: `serve` or `client`, anything else is refused.
pub fn parse_mode(s: &String) -> (r: Result<Mode, TransportError>)
    ensures
        match spec_mode(s@) {
            Some(m) => r == Ok::<Mode, TransportError>(m),
            None => r == Err::<Mode, TransportError>(TransportError::UnknownMode),
        },
{
    let serve = "serve".to_owned();
    let client = "client".to_owned();
    if *s == serve {
        Ok(Mode::Serve)
    } else if *s == client {
        Ok(Mode::Client)
    } else {
        Err(TransportError::UnknownMode)
    }
}

} // verus!
