use vstd::prelude::*;

verus! {

/// Every way in which setting up or running a transport can fail.
///
/// Setup errors (`Config`, `Identity`, `Trust`, `Bind`) are fatal for the
/// process; the others concern one connection only.
#[derive(Clone, Copy, Debug, PartialEq, Eq, Structural)]
pub enum TransportError {
    /// A credential that the active role needs is missing from the configuration.
    Config,
    /// The server identity bundle could not be parsed or used.
    Identity,
    /// The trusted root certificate could not be parsed or used.
    Trust,
    /// The listening address is in use or cannot be parsed.
    Bind,
    /// Accepting the next inbound connection failed.
    Accept,
    /// The server-side handshake of one accepted connection failed.
    Handshake,
    /// Opening an outbound connection failed at the network level.
    Connect,
    /// The peer's certificate chain or name did not verify.
    Verification,
    /// A read or a write failed in the middle of a connection.
    Io,
    /// The transport selector is neither `tcp` nor `tls`.
    UnknownTransport,
    /// The mode selector is neither `serve` nor `client`.
    UnknownMode,
}

impl TransportError {
    /// True of the errors after which the process cannot serve or connect at all.
    pub open spec fn spec_is_fatal(self) -> bool {
        match self {
            TransportError::Config | TransportError::Identity | TransportError::Trust
            | TransportError::Bind | TransportError::UnknownTransport
            | TransportError::UnknownMode => true,
            _ => false,
        }
    }

    /// Whether this error ends the process rather than one connection.
    pub fn is_fatal(&self) -> (r: bool)
        ensures
            r == self.spec_is_fatal(),
    {
        match self {
            TransportError::Config | TransportError::Identity | TransportError::Trust
            | TransportError::Bind | TransportError::UnknownTransport
            | TransportError::UnknownMode => true,
            _ => false,
        }
    }

    /// The setup or connection phase that failed, in words.
    pub fn describe(&self) -> (r: &'static str)
        ensures
            *self == TransportError::Config ==> r@ == "missing credential in the TLS configuration"@,
            *self == TransportError::Identity ==> r@ == "failed to create identity"@,
            *self == TransportError::Trust ==> r@ == "failed to load the trusted root certificate"@,
            *self == TransportError::Bind ==> r@ == "failed to bind"@,
            *self == TransportError::Accept ==> r@ == "failed to accept a connection"@,
            *self == TransportError::Handshake ==> r@ == "TLS handshake failed"@,
            *self == TransportError::Connect ==> r@ == "failed to connect"@,
            *self == TransportError::Verification ==> r@ == "peer certificate did not verify"@,
            *self == TransportError::Io ==> r@ == "read or write failed"@,
            *self == TransportError::UnknownTransport ==> r@ == "unknown transport"@,
            *self == TransportError::UnknownMode ==> r@ == "unknown mode"@,
    {
        match self {
            TransportError::Config => "missing credential in the TLS configuration",
            TransportError::Identity => "failed to create identity",
            TransportError::Trust => "failed to load the trusted root certificate",
            TransportError::Bind => "failed to bind",
            TransportError::Accept => "failed to accept a connection",
            TransportError::Handshake => "TLS handshake failed",
            TransportError::Connect => "failed to connect",
            TransportError::Verification => "peer certificate did not verify",
            TransportError::Io => "read or write failed",
            TransportError::UnknownTransport => "unknown transport",
            TransportError::UnknownMode => "unknown mode",
        }
    }
}

} // verus!
