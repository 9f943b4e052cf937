use transport_echo::config::TransportConfig;
use transport_echo::error::TransportError;
use transport_echo::selector::{parse_mode, parse_transport, Mode, TransportKind};
use transport_echo::TcpTransport;

#[test]
fn transport_selectors() {
    assert_eq!(parse_transport(&String::from("tcp")), Ok(TransportKind::Tcp));
    assert_eq!(parse_transport(&String::from("tls")), Ok(TransportKind::Tls));
    assert_eq!(parse_transport(&String::from("udp")), Err(TransportError::UnknownTransport));
    assert_eq!(parse_transport(&String::from("")), Err(TransportError::UnknownTransport));
    assert_eq!(parse_transport(&String::from("TCP")), Err(TransportError::UnknownTransport));
}

#[test]
fn mode_selectors() {
    assert_eq!(parse_mode(&String::from("serve")), Ok(Mode::Serve));
    assert_eq!(parse_mode(&String::from("client")), Ok(Mode::Client));
    assert_eq!(parse_mode(&String::from("server")), Err(TransportError::UnknownMode));
    assert_eq!(parse_mode(&String::from("")), Err(TransportError::UnknownMode));
}

#[test]
fn fatal_errors_are_the_setup_errors() {
    assert!(TransportError::Config.is_fatal());
    assert!(TransportError::Identity.is_fatal());
    assert!(TransportError::Trust.is_fatal());
    assert!(TransportError::Bind.is_fatal());
    assert!(TransportError::UnknownMode.is_fatal());
    assert!(!TransportError::Accept.is_fatal());
    assert!(!TransportError::Handshake.is_fatal());
    assert!(!TransportError::Io.is_fatal());
    assert!(!TransportError::Verification.is_fatal());
    assert_eq!(TransportError::Bind.describe(), "failed to bind");
}

#[test]
fn plain_config_does_not_use_tls() {
    let _t = TcpTransport::new();
    assert!(!TransportConfig { tls: None }.uses_tls());
}

#[test]
fn each_error_names_its_phase() {
    assert_eq!(TransportError::Config.describe(), "missing credential in the TLS configuration");
    assert_eq!(TransportError::Identity.describe(), "failed to create identity");
    assert_eq!(TransportError::Trust.describe(), "failed to load the trusted root certificate");
    assert_eq!(TransportError::Accept.describe(), "failed to accept a connection");
    assert_eq!(TransportError::Handshake.describe(), "TLS handshake failed");
    assert_eq!(TransportError::Connect.describe(), "failed to connect");
    assert_eq!(TransportError::Verification.describe(), "peer certificate did not verify");
    assert_eq!(TransportError::Io.describe(), "read or write failed");
    assert_eq!(TransportError::UnknownTransport.describe(), "unknown transport");
    assert_eq!(TransportError::UnknownMode.describe(), "unknown mode");
}
