use vstd::prelude::*;

use crate::echo::read_prefix;
use crate::error::TransportError;

verus! {

/// The bytes of the greeting that the probe sends: `hello`.
pub open spec fn greeting() -> Seq<u8> {
    seq![104u8, 101u8, 108u8, 108u8, 111u8]
}

/// The greeting, as bytes to write.
pub fn greeting_bytes() -> (r: Vec<u8>)
    ensures
        r@ == greeting(),
{
    let r: Vec<u8> = vec![104u8, 101u8, 108u8, 108u8, 111u8];
    assert(r@ =~= greeting());
    r
}

/// Where the client probe stands.
#[derive(Clone, Copy, Debug, PartialEq, Eq)]
pub enum ProbePhase {
    /// The connection (for TLS, with its verified handshake) is being opened.
    Connecting,
    /// The greeting is being written.
    Sending,
    /// Waiting for bytes from the server.
    Relaying,
    /// Received bytes are being copied to the output.
    Emitting,
    /// The probe has ended with this outcome.
    Done { outcome: Result<(), TransportError> },
}

/// What the loop around the probe reports back to it.
#[derive(Clone, Copy, Debug, PartialEq, Eq)]
pub enum ProbeEvent {
    /// The connection is open and, for TLS, the server verified.
    Connected,
    /// Opening the connection failed, at the network level or on verification.
    ConnectFailed(TransportError),
    /// The greeting was written.
    Sent,
    /// A read put this many bytes at the start of the buffer; zero means
    /// that the server closed the stream.
    Received(usize),
    /// The last bytes were copied to the output.
    Emitted,
    /// A read or a write failed.
    Failed,
}

/// What the probe asks the loop around it to do next.
pub enum ProbeAction {
    /// Open the connection.
    Connect,
    /// Write these bytes to the server.
    Send(Vec<u8>),
    /// Read from the server into the buffer.
    Read,
    /// Copy these bytes to the output, unchanged.
    Emit(Vec<u8>),
    /// End with this outcome.
    Finish(Result<(), TransportError>),
}

/// The mathematical value of a `ProbeAction`.
pub enum ProbeActionView {
    Connect,
    Send(Seq<u8>),
    Read,
    Emit(Seq<u8>),
    Finish(Result<(), TransportError>),
}

impl View for ProbeAction {
    type V = ProbeActionView;

    open spec fn view(&self) -> ProbeActionView {
        match self {
            ProbeAction::Connect => ProbeActionView::Connect,
            ProbeAction::Send(v) => ProbeActionView::Send(v@),
            ProbeAction::Read => ProbeActionView::Read,
            ProbeAction::Emit(v) => ProbeActionView::Emit(v@),
            ProbeAction::Finish(r) => ProbeActionView::Finish(*r),
        }
    }
}

/// How a probe ends after a failure in the middle of the exchange.
pub open spec fn probe_failure() -> (ProbePhase, ProbeActionView) {
    (
        ProbePhase::Done { outcome: Err(TransportError::Io) },
        ProbeActionView::Finish(Err(TransportError::Io)),
    )
}

/// One transition of the client probe: connect, send the greeting, then copy
/// every byte received to the output until the server closes the stream.
pub open spec fn probe_step(phase: ProbePhase, event: ProbeEvent, buf: Seq<u8>) -> (
    ProbePhase,
    ProbeActionView,
) {
    match phase {
        ProbePhase::Done { outcome } => (phase, ProbeActionView::Finish(outcome)),
        ProbePhase::Connecting => match event {
            ProbeEvent::Connected => (ProbePhase::Sending, ProbeActionView::Send(greeting())),
            ProbeEvent::ConnectFailed(e) => (
                ProbePhase::Done { outcome: Err(e) },
                ProbeActionView::Finish(Err(e)),
            ),
            _ => probe_failure(),
        },
        ProbePhase::Sending => match event {
            ProbeEvent::Sent => (ProbePhase::Relaying, ProbeActionView::Read),
            _ => probe_failure(),
        },
        ProbePhase::Relaying => match event {
            ProbeEvent::Received(n) => if n == 0 {
                (ProbePhase::Done { outcome: Ok(()) }, ProbeActionView::Finish(Ok(())))
            } else {
                (ProbePhase::Emitting, ProbeActionView::Emit(buf.take(n as int)))
            },
            _ => probe_failure(),
        },
        ProbePhase::Emitting => match event {
            ProbeEvent::Emitted => (ProbePhase::Relaying, ProbeActionView::Read),
            _ => probe_failure(),
        },
    }
}

/// The decisions of the client probe.
pub struct ClientProbe {
    pub phase: ProbePhase,
}

impl ClientProbe {
    /// A probe that has not connected yet.
    pub fn new() -> (r: ClientProbe)
        ensures
            r.phase == ProbePhase::Connecting,
    {
        ClientProbe { phase: ProbePhase::Connecting }
    }

    /// Takes the event that the last action led to, with the read buffer,
    /// and returns the next action.
    pub fn step(&mut self, event: ProbeEvent, buf: &[u8]) -> (a: ProbeAction)
        requires
            event matches ProbeEvent::Received(n) ==> n <= buf@.len(),
        ensures
            (final(self).phase, a@) == probe_step(old(self).phase, event, buf@),
    {
        match self.phase {
            ProbePhase::Done { outcome } => ProbeAction::Finish(outcome),
            ProbePhase::Connecting => match event {
                ProbeEvent::Connected => {
                    self.phase = ProbePhase::Sending;
                    ProbeAction::Send(greeting_bytes())
                },
                ProbeEvent::ConnectFailed(e) => {
                    self.phase = ProbePhase::Done { outcome: Err(e) };
                    ProbeAction::Finish(Err(e))
                },
                _ => self.fail(),
            },
            ProbePhase::Sending => match event {
                ProbeEvent::Sent => {
                    self.phase = ProbePhase::Relaying;
                    ProbeAction::Read
                },
                _ => self.fail(),
            },
            ProbePhase::Relaying => match event {
                ProbeEvent::Received(n) => {
                    if n == 0 {
                        self.phase = ProbePhase::Done { outcome: Ok(()) };
                        ProbeAction::Finish(Ok(()))
                    } else {
                        self.phase = ProbePhase::Emitting;
                        ProbeAction::Emit(read_prefix(buf, n))
                    }
                },
                _ => self.fail(),
            },
            ProbePhase::Emitting => match event {
                ProbeEvent::Emitted => {
                    self.phase = ProbePhase::Relaying;
                    ProbeAction::Read
                },
                _ => self.fail(),
            },
        }
    }

    fn fail(&mut self) -> (a: ProbeAction)
        ensures
            (final(self).phase, a@) == probe_failure(),
    {
        self.phase = ProbePhase::Done { outcome: Err(TransportError::Io) };
        ProbeAction::Finish(Err(TransportError::Io))
    }
}

} // verus!
