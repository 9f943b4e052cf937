use vstd::prelude::*;

use crate::config::{spec_verification_name, TlsConfig};
use crate::error::TransportError;
use vstd::string::StringSliceAdditionalSpecFns;

verus! {

#[verifier::external_type_specification]
#[verifier::external_body]
pub struct ExNativeTlsError(tokio_native_tls::native_tls::Error);

#[verifier::external_type_specification]
#[verifier::external_body]
pub struct ExIdentity(tokio_native_tls::native_tls::Identity);

#[verifier::external_type_specification]
#[verifier::external_body]
pub struct ExCertificate(tokio_native_tls::native_tls::Certificate);

#[verifier::external_type_specification]
#[verifier::external_body]
pub struct ExTlsConnectorBuilder(tokio_native_tls::native_tls::TlsConnectorBuilder);

#[verifier::external_type_specification]
#[verifier::external_body]
pub struct ExTlsConnector(tokio_native_tls::TlsConnector);

#[verifier::external_type_specification]
#[verifier::external_body]
pub struct ExTlsAcceptor(tokio_native_tls::TlsAcceptor);

/// Whether no byte is zero: what a C string can carry.
pub open spec fn has_no_nul(b: Seq<u8>) -> bool {
    forall|i: int| 0 <= i < b.len() ==> b[i] != 0u8
}

/// Relies on native_tls::Identity::from_pkcs12: parses a DER PKCS #12
/// archive and decrypts its key with the passphrase, or reports an error.
/// The passphrase is handed to OpenSSL as a C string, which panics on a zero byte.
#[verifier::external_body]
fn parse_pkcs12(
    der: &[u8],
    password: &str,
) -> (r: Result<tokio_native_tls::native_tls::Identity, tokio_native_tls::native_tls::Error>)
    requires
        has_no_nul(password.spec_bytes()),
{
    tokio_native_tls::native_tls::Identity::from_pkcs12(der, password)
}

/// Relies on native_tls::Certificate::from_pem: parses one PEM X509
/// certificate, or reports an error. OpenSSL's memory buffer asserts that
/// the input fits a C `int`.
#[verifier::external_body]
fn parse_pem_certificate(
    pem: &[u8],
) -> (r: Result<tokio_native_tls::native_tls::Certificate, tokio_native_tls::native_tls::Error>)
    requires
        pem@.len() <= i32::MAX,
{
    tokio_native_tls::native_tls::Certificate::from_pem(pem)
}

/// Relies on native_tls::TlsConnector::builder: a builder with the default
/// settings, which trusts the system's roots.
#[verifier::external_body]
fn connector_builder() -> (r: tokio_native_tls::native_tls::TlsConnectorBuilder) {
    tokio_native_tls::native_tls::TlsConnector::builder()
}

/// Relies on native_tls::TlsConnectorBuilder::add_root_certificate: adds
/// `root` to the roots that connectors built from `b` trust.
#[verifier::external_body]
fn add_trusted_root(
    b: &mut tokio_native_tls::native_tls::TlsConnectorBuilder,
    root: tokio_native_tls::native_tls::Certificate,
) {
    b.add_root_certificate(root);
}

/// Relies on native_tls::TlsConnectorBuilder::build: a client-side handshake
/// context with the builder's settings, wrapped for tokio.
#[verifier::external_body]
fn build_connector(
    b: &tokio_native_tls::native_tls::TlsConnectorBuilder,
) -> (r: Result<tokio_native_tls::TlsConnector, tokio_native_tls::native_tls::Error>) {
    b.build().map(tokio_native_tls::TlsConnector::from)
}

/// Relies on native_tls::TlsAcceptor::new: a server-side handshake context
/// built from `identity`, wrapped for tokio.
#[verifier::external_body]
fn acceptor_with(
    identity: tokio_native_tls::native_tls::Identity,
) -> (r: Result<tokio_native_tls::TlsAcceptor, tokio_native_tls::native_tls::Error>) {
    tokio_native_tls::native_tls::TlsAcceptor::new(identity).map(tokio_native_tls::TlsAcceptor::from)
}

/// Turns the result of a credential step into the library's error: a failure
/// becomes `err`, a success passes through.
pub fn or_setup_error<T>(
    r: Result<T, tokio_native_tls::native_tls::Error>,
    err: TransportError,
) -> (out: Result<T, TransportError>)
    ensures
        r is Ok <==> out is Ok,
        r is Ok ==> out == Ok::<T, TransportError>(r->Ok_0),
        r is Err ==> out == Err::<T, TransportError>(err),
{
    match r {
        Ok(v) => Ok(v),
        Err(_) => Err(err),
    }
}

/// Whether no byte of `b` is zero.
pub fn bytes_have_no_nul(b: &[u8]) -> (r: bool)
    ensures
        r == has_no_nul(b@),
{
    let mut i: usize = 0;
    while i < b.len()
        invariant
            i <= b@.len(),
            forall|j: int| 0 <= j < i ==> b@[j] != 0u8,
        decreases b@.len() - i,
    {
        if b[i] == 0u8 {
            return false;
        }
        i = i + 1;
    }
    true
}

/// The TLS variant: its configuration and, when a trusted root was given,
/// the connector built from it once at startup.
pub struct TlsTransport {
    pub config: TlsConfig,
    pub connector: Option<tokio_native_tls::TlsConnector>,
}

impl TlsTransport {
    /// Builds the variant from its configuration and the PEM text of the
    /// trusted root that `config.trusted_root` names, if it names one.
    ///
    /// Without root material no connector is built and the transport can
    /// only serve; material that does not parse, or is longer than
    /// `i32::MAX` bytes, fails with `Trust`.
    pub fn new(config: TlsConfig, trusted_root_pem: Option<&[u8]>) -> (r: Result<
        TlsTransport,
        TransportError,
    >)
        requires
            trusted_root_pem is Some <==> config.trusted_root is Some,
        ensures
            trusted_root_pem is None ==> r is Ok,
            trusted_root_pem matches Some(pem) && pem@.len() > i32::MAX ==> r
                == Err::<TlsTransport, TransportError>(TransportError::Trust),
            r is Ok ==> r->Ok_0.config == config,
            r is Ok ==> (r->Ok_0.connector is Some <==> trusted_root_pem is Some),
            r is Err ==> r == Err::<TlsTransport, TransportError>(TransportError::Trust),
    {
        match trusted_root_pem {
            None => Ok(TlsTransport { config, connector: None }),
            Some(pem) => {
                if pem.len() > i32::MAX as usize {
                    return Err(TransportError::Trust);
                }
                let cert = or_setup_error(parse_pem_certificate(pem), TransportError::Trust)?;
                let mut builder = connector_builder();
                add_trusted_root(&mut builder, cert);
                let connector = or_setup_error(build_connector(&builder), TransportError::Trust)?;
                Ok(TlsTransport { config, connector: Some(connector) })
            },
        }
    }

    /// The bundle path and passphrase that binding needs: `Config` when the
    /// configuration lacks either.
    pub fn identity_source(&self) -> (r: Result<(String, String), TransportError>)
        ensures
            self.config.pkcs12.is_some() && self.config.pkcs12_password.is_some() <==> r is Ok,
            r is Ok ==> r->Ok_0.0 == self.config.pkcs12->Some_0 && r->Ok_0.1
                == self.config.pkcs12_password->Some_0,
            r is Err ==> r == Err::<(String, String), TransportError>(TransportError::Config),
    {
        self.config.server_identity()
    }

    /// Builds the handshake acceptor from the bytes of the identity bundle and
    /// its passphrase. Any failure, a wrong passphrase included, is an
    /// `Identity` error, so it surfaces at bind time and never on accept. A
    /// passphrase with a NUL character cannot be handed on and fails so too.
    pub fn acceptor(bundle: &[u8], password: &String) -> (r: Result<
        tokio_native_tls::TlsAcceptor,
        TransportError,
    >)
        ensures
            !has_no_nul(vstd::utf8::encode_utf8(password@)) ==> r
                == Err::<tokio_native_tls::TlsAcceptor, TransportError>(TransportError::Identity),
            r is Err ==> r == Err::<tokio_native_tls::TlsAcceptor, TransportError>(
                TransportError::Identity,
            ),
    {
        let pass = password.as_str();
        if !bytes_have_no_nul(pass.as_bytes()) {
            return Err(TransportError::Identity);
        }
        let identity = or_setup_error(parse_pkcs12(bundle, pass), TransportError::Identity)?;
        or_setup_error(acceptor_with(identity), TransportError::Identity)
    }

    /// The connector and the name to verify for an outbound connection to
    /// `addr`: `Config` when no trusted root was configured.
    pub fn connector_for<'a>(&'a self, addr: &'a String) -> (r: Result<
        (&'a tokio_native_tls::TlsConnector, &'a String),
        TransportError,
    >)
        ensures
            r is Ok <==> self.connector is Some,
            r is Ok ==> *r->Ok_0.0 == self.connector->Some_0 && r->Ok_0.1@
                == spec_verification_name(self.config.hostname, addr@),
            r is Err ==> r->Err_0 == TransportError::Config,
    {
        match &self.connector {
            Some(c) => Ok((c, self.config.verification_name(addr))),
            None => Err(TransportError::Config),
        }
    }
}

} // verus!
