use vstd::prelude::*;

use crate::error::TransportError;

verus! {

/// Capacity of the buffer that one read of a connection fills.
pub const ECHO_BUFFER_LEN: usize = 2048;

/// Where a connection handler stands.
#[derive(Clone, Copy, Debug, PartialEq, Eq, Structural)]
pub enum EchoPhase {
    /// Waiting for the next read to complete.
    Reading,
    /// Waiting for the echo of the last read to be written.
    Writing,
    /// Done; `clean` tells whether the peer closed without any failure.
    Closed { clean: bool },
}

/// What the loop around a handler reports back to it.
#[derive(Clone, Copy, Debug, PartialEq, Eq, Structural)]
pub enum EchoEvent {
    /// A read completed and put this many bytes at the start of the buffer;
    /// zero means that the peer closed its side.
    Read(usize),
    /// The last write completed.
    Written,
    /// A read or a write failed.
    Failed,
}

/// What a handler asks the loop around it to do next.
pub enum EchoAction {
    /// Read from the connection into the buffer.
    Read,
    /// Write these bytes back to the peer.
    Write(Vec<u8>),
    /// Release the connection and report this outcome.
    Finish(Result<(), TransportError>),
}

/// The mathematical value of an `EchoAction`.
pub enum EchoActionView {
    Read,
    Write(Seq<u8>),
    Finish(Result<(), TransportError>),
}

impl View for EchoAction {
    type V = EchoActionView;

    open spec fn view(&self) -> EchoActionView {
        match self {
            EchoAction::Read => EchoActionView::Read,
            EchoAction::Write(v) => EchoActionView::Write(v@),
            EchoAction::Finish(r) => EchoActionView::Finish(*r),
        }
    }
}

/// The outcome that a closed handler reports.
pub open spec fn closed_outcome(clean: bool) -> Result<(), TransportError> {
    if clean {
        Ok(())
    } else {
        Err(TransportError::Io)
    }
}

/// One transition of the echo handler: from its phase, the event that the
/// loop reports and the contents of the read buffer, the next phase and the
/// action. A read of `n > 0` bytes is echoed as exactly those `n` bytes.
pub open spec fn echo_step(phase: EchoPhase, event: EchoEvent, buf: Seq<u8>) -> (
    EchoPhase,
    EchoActionView,
) {
    match phase {
        EchoPhase::Closed { clean } => (phase, EchoActionView::Finish(closed_outcome(clean))),
        EchoPhase::Reading => match event {
            EchoEvent::Read(n) => if n == 0 {
                (EchoPhase::Closed { clean: true }, EchoActionView::Finish(Ok(())))
            } else {
                (EchoPhase::Writing, EchoActionView::Write(buf.take(n as int)))
            },
            _ => (EchoPhase::Closed { clean: false }, EchoActionView::Finish(closed_outcome(false))),
        },
        EchoPhase::Writing => match event {
            EchoEvent::Written => (EchoPhase::Reading, EchoActionView::Read),
            _ => (EchoPhase::Closed { clean: false }, EchoActionView::Finish(closed_outcome(false))),
        },
    }
}

/// The echo loop of one connection, written as a state machine: the loop
/// around it performs each action and reports what came of it.
pub struct EchoHandler {
    pub phase: EchoPhase,
}

impl EchoHandler {
    /// A handler for a freshly accepted connection, ready to read.
    pub fn new() -> (r: EchoHandler)
        ensures
            r.phase == EchoPhase::Reading,
    {
        EchoHandler { phase: EchoPhase::Reading }
    }

    /// Whether the handler has released its connection.
    pub fn is_closed(&self) -> (r: bool)
        ensures
            r == self.phase is Closed,
    {
        match self.phase {
            EchoPhase::Closed { .. } => true,
            _ => false,
        }
    }

    /// Takes the event that the last action led to, with the read buffer,
    /// and returns the next action.
    pub fn step(&mut self, event: EchoEvent, buf: &[u8]) -> (a: EchoAction)
        requires
            event matches EchoEvent::Read(n) ==> n <= buf@.len(),
        ensures
            (final(self).phase, a@) == echo_step(old(self).phase, event, buf@),
    {
        match self.phase {
            EchoPhase::Closed { clean } => {
                if clean {
                    EchoAction::Finish(Ok(()))
                } else {
                    EchoAction::Finish(Err(TransportError::Io))
                }
            },
            EchoPhase::Reading => match event {
                EchoEvent::Read(n) => {
                    if n == 0 {
                        self.phase = EchoPhase::Closed { clean: true };
                        EchoAction::Finish(Ok(()))
                    } else {
                        self.phase = EchoPhase::Writing;
                        EchoAction::Write(read_prefix(buf, n))
                    }
                },
                _ => {
                    self.phase = EchoPhase::Closed { clean: false };
                    EchoAction::Finish(Err(TransportError::Io))
                },
            },
            EchoPhase::Writing => match event {
                EchoEvent::Written => {
                    self.phase = EchoPhase::Reading;
                    EchoAction::Read
                },
                _ => {
                    self.phase = EchoPhase::Closed { clean: false };
                    EchoAction::Finish(Err(TransportError::Io))
                },
            },
        }
    }
}

/// A copy of the first `n` bytes of `buf`.
pub fn read_prefix(buf: &[u8], n: usize) -> (r: Vec<u8>)
    requires
        n <= buf@.len(),
    ensures
        r@ == buf@.take(n as int),
{
    let mut r: Vec<u8> = Vec::with_capacity(n);
    let mut i: usize = 0;
    while i < n
        invariant
            n <= buf@.len(),
            i <= n,
            r@ == buf@.take(i as int),
        decreases n - i,
    {
        r.push(buf[i]);
        i = i + 1;
        assert(r@ =~= buf@.take(i as int));
    }
    r
}

} // verus!
