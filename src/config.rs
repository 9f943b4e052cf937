use vstd::prelude::*;

use crate::error::TransportError;

verus! {

/// Which security mode the process runs with: plain when `tls` is `None`.
pub struct TransportConfig {
    pub tls: Option<TlsConfig>,
}

/// Where the TLS credentials live.
///
/// Every field is optional: a client needs only the trust material and a
/// server only its identity. A role that misses a field it needs fails with
/// `TransportError::Config`.
pub struct TlsConfig {
    /// Path of the PEM root certificate that outbound connections trust.
    pub trusted_root: Option<String>,
    /// Path of the PKCS #12 bundle that holds the server identity.
    pub pkcs12: Option<String>,
    /// Passphrase of that bundle.
    pub pkcs12_password: Option<String>,
    /// Name to verify the server's certificate against, instead of the address.
    pub hostname: Option<String>,
}

/// The name that an outbound handshake verifies: the override if there is one,
/// else the address dialled.
pub open spec fn spec_verification_name(hostname: Option<String>, addr: Seq<char>) -> Seq<char> {
    match hostname {
        Some(h) => h@,
        None => addr,
    }
}

impl TransportConfig {
    /// Whether the configuration selects the TLS variant.
    pub fn uses_tls(&self) -> (r: bool)
        ensures
            r == self.tls.is_some(),
    {
        self.tls.is_some()
    }
}

impl TlsConfig {
    /// The bundle path and passphrase that a server needs to bind, or
    /// `Config` when either is absent.
    pub fn server_identity(&self) -> (r: Result<(String, String), TransportError>)
        ensures
            self.pkcs12.is_some() && self.pkcs12_password.is_some() <==> r is Ok,
            r is Ok ==> r->Ok_0.0 == self.pkcs12->Some_0 && r->Ok_0.1
                == self.pkcs12_password->Some_0,
            r is Err ==> r == Err::<(String, String), TransportError>(TransportError::Config),
    {
        match (&self.pkcs12, &self.pkcs12_password) {
            (Some(path), Some(password)) => Ok((path.clone(), password.clone())),
            _ => Err(TransportError::Config),
        }
    }

    /// The name that a client verifies the server's certificate against.
    pub fn verification_name<'a>(&'a self, addr: &'a String) -> (r: &'a String)
        ensures
            r@ == spec_verification_name(self.hostname, addr@),
    {
        match &self.hostname {
            Some(h) => h,
            None => addr,
        }
    }
}

} // verus!
