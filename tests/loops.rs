use transport_echo::echo::{EchoAction, EchoEvent, EchoHandler, ECHO_BUFFER_LEN};
use transport_echo::error::TransportError;
use transport_echo::probe::{greeting_bytes, ClientProbe, ProbeAction, ProbeEvent, ProbePhase};
use transport_echo::server::{accept_failure_event, AcceptFailure, ServerAction, ServerEvent, ServerLoop, ServerPhase};

#[test]
fn server_binds_then_dispatches_each_connection() {
    let mut s = ServerLoop::new();
    assert_eq!(s.start(), ServerAction::Bind);
    assert_eq!(s.step(ServerEvent::Bound), ServerAction::Accept);
    assert_eq!(s.step(ServerEvent::Accepted), ServerAction::Dispatch);
    assert_eq!(s.step(ServerEvent::Accepted), ServerAction::Dispatch);
    assert_eq!(s.phase, ServerPhase::Accepting);
}

#[test]
fn server_keeps_accepting_after_one_failure() {
    let mut s = ServerLoop::new();
    s.step(ServerEvent::Bound);
    assert_eq!(s.step(ServerEvent::AcceptFailed(TransportError::Accept)), ServerAction::Accept);
    assert_eq!(s.step(ServerEvent::AcceptFailed(TransportError::Handshake)), ServerAction::Accept);
    assert_eq!(s.step(ServerEvent::Accepted), ServerAction::Dispatch);
}

#[test]
fn server_stops_when_bind_fails() {
    let mut s = ServerLoop::new();
    assert_eq!(
        s.step(ServerEvent::BindFailed(TransportError::Identity)),
        ServerAction::Stop(Err(TransportError::Identity))
    );
    assert_eq!(s.phase, ServerPhase::Stopped { outcome: Err(TransportError::Identity) });
    assert_eq!(s.step(ServerEvent::Accepted), ServerAction::Stop(Err(TransportError::Identity)));
}

#[test]
fn server_stops_when_the_listener_is_gone() {
    let mut s = ServerLoop::new();
    s.step(ServerEvent::Bound);
    assert_eq!(s.step(ServerEvent::ListenerClosed), ServerAction::Stop(Err(TransportError::Accept)));
}

#[test]
fn server_ignores_events_that_do_not_fit() {
    let mut s = ServerLoop::new();
    assert_eq!(s.step(ServerEvent::Accepted), ServerAction::Bind);
    assert_eq!(s.phase, ServerPhase::Binding);
}

#[test]
fn greeting_is_hello() {
    assert_eq!(greeting_bytes(), b"hello".to_vec());
}

#[test]
fn probe_sends_hello_and_relays_the_echo() {
    let mut buf = [0u8; ECHO_BUFFER_LEN];
    let mut p = ClientProbe::new();
    let sent = match p.step(ProbeEvent::Connected, &buf) {
        ProbeAction::Send(v) => v,
        _ => panic!("expected the greeting"),
    };
    assert_eq!(sent, b"hello".to_vec());
    assert!(matches!(p.step(ProbeEvent::Sent, &buf), ProbeAction::Read));

    // The server side of the same exchange, on the plaintext variant.
    let mut server_buf = [0u8; ECHO_BUFFER_LEN];
    server_buf[..sent.len()].copy_from_slice(&sent);
    let mut h = EchoHandler::new();
    let reply = match h.step(EchoEvent::Read(sent.len()), &server_buf) {
        EchoAction::Write(v) => v,
        _ => panic!("expected the echo"),
    };

    buf[..reply.len()].copy_from_slice(&reply);
    let out = match p.step(ProbeEvent::Received(reply.len()), &buf) {
        ProbeAction::Emit(v) => v,
        _ => panic!("expected output"),
    };
    assert_eq!(out, b"hello".to_vec());
    assert!(matches!(p.step(ProbeEvent::Emitted, &buf), ProbeAction::Read));
    assert!(matches!(p.step(ProbeEvent::Received(0), &buf), ProbeAction::Finish(Ok(()))));
    assert_eq!(p.phase, ProbePhase::Done { outcome: Ok(()) });
}

#[test]
fn probe_with_untrusted_server_sends_nothing() {
    let buf = [0u8; ECHO_BUFFER_LEN];
    let mut p = ClientProbe::new();
    let a = p.step(ProbeEvent::ConnectFailed(TransportError::Verification), &buf);
    assert!(matches!(a, ProbeAction::Finish(Err(TransportError::Verification))));
    assert!(matches!(p.step(ProbeEvent::Connected, &buf), ProbeAction::Finish(Err(TransportError::Verification))));
}

#[test]
fn probe_fails_on_io_error() {
    let buf = [0u8; ECHO_BUFFER_LEN];
    let mut p = ClientProbe::new();
    p.step(ProbeEvent::Connected, &buf);
    p.step(ProbeEvent::Sent, &buf);
    assert!(matches!(p.step(ProbeEvent::Failed, &buf), ProbeAction::Finish(Err(TransportError::Io))));
}

#[test]
fn only_an_invalid_listener_ends_the_accept_loop() {
    assert_eq!(accept_failure_event(AcceptFailure::InvalidListener), ServerEvent::ListenerClosed);
    assert_eq!(
        accept_failure_event(AcceptFailure::Handshake),
        ServerEvent::AcceptFailed(TransportError::Handshake)
    );
    assert_eq!(accept_failure_event(AcceptFailure::Other), ServerEvent::AcceptFailed(TransportError::Accept));
    let mut s = ServerLoop::new();
    s.step(ServerEvent::Bound);
    assert_eq!(s.step(accept_failure_event(AcceptFailure::Other)), ServerAction::Accept);
    assert_eq!(
        s.step(accept_failure_event(AcceptFailure::InvalidListener)),
        ServerAction::Stop(Err(TransportError::Accept))
    );
}
