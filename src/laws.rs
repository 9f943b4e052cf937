use vstd::prelude::*;

use crate::echo::{echo_step, EchoActionView, EchoEvent, EchoPhase, ECHO_BUFFER_LEN};
use crate::error::TransportError;
use crate::probe::{greeting, probe_step, ProbeActionView, ProbeEvent, ProbePhase};
use crate::server::{server_step, ServerAction, ServerEvent, ServerPhase};

verus! {

/// All the chunks, one after the other.
pub open spec fn concat(chunks: Seq<Seq<u8>>) -> Seq<u8>
    decreases chunks.len(),
{
    if chunks.len() == 0 {
        Seq::empty()
    } else {
        concat(chunks.drop_last()) + chunks.last()
    }
}

/// A handler fed, for each chunk in turn, the read of that chunk and the
/// completion of the write it asked for: its phase at the end, and every byte
/// it asked to write.
pub open spec fn echo_exchange(chunks: Seq<Seq<u8>>) -> (EchoPhase, Seq<u8>)
    decreases chunks.len(),
{
    if chunks.len() == 0 {
        (EchoPhase::Reading, Seq::empty())
    } else {
        let (phase, out) = echo_exchange(chunks.drop_last());
        let c = chunks.last();
        let (read_phase, action) = echo_step(phase, EchoEvent::Read(c.len() as usize), c);
        let (written_phase, _) = echo_step(read_phase, EchoEvent::Written, c);
        let sent = match action {
            EchoActionView::Write(bytes) => bytes,
            _ => Seq::empty(),
        };
        (written_phase, out + sent)
    }
}

/// A read of `n` bytes, from 1 up to the buffer's capacity, is answered with
/// exactly those `n` bytes, and with nothing else from the buffer.
pub proof fn echo_reply_is_what_was_read(buf: Seq<u8>, n: usize)
    requires
        buf.len() <= ECHO_BUFFER_LEN,
        1 <= n <= buf.len(),
    ensures
        ({
            let (phase, action) = echo_step(EchoPhase::Reading, EchoEvent::Read(n), buf);
            &&& phase == EchoPhase::Writing
            &&& action matches EchoActionView::Write(reply)
            &&& reply.len() == n
            &&& forall|i: int| 0 <= i < n ==> reply[i] == buf[i]
        }),
{
}

/// Each write that the handler asks for in `echo_exchange`, in order.
pub open spec fn echo_writes(chunks: Seq<Seq<u8>>) -> Seq<Seq<u8>>
    decreases chunks.len(),
{
    if chunks.len() == 0 {
        Seq::empty()
    } else {
        let (phase, _) = echo_exchange(chunks.drop_last());
        let c = chunks.last();
        let (_, action) = echo_step(phase, EchoEvent::Read(c.len() as usize), c);
        let sent = match action {
            EchoActionView::Write(bytes) => bytes,
            _ => Seq::empty(),
        };
        echo_writes(chunks.drop_last()).push(sent)
    }
}

/// Whether every chunk is a possible non-empty read: 1 up to the buffer's
/// capacity bytes.
pub open spec fn valid_reads(chunks: Seq<Seq<u8>>) -> bool {
    forall|i: int| 0 <= i < chunks.len() ==> 1 <= #[trigger] chunks[i].len() <= ECHO_BUFFER_LEN
}

/// Whatever a client sends, in reads of 1 up to the buffer's capacity bytes,
/// the handler answers each read with one write of exactly the bytes read, so
/// the peer gets the same bytes in the same order; it is then ready to read
/// again, and a close of the peer's side ends it cleanly.
pub proof fn echo_exchange_returns_the_stream(chunks: Seq<Seq<u8>>, buf: Seq<u8>)
    requires
        valid_reads(chunks),
    ensures
        echo_writes(chunks) == chunks,
        echo_exchange(chunks) == (EchoPhase::Reading, concat(chunks)),
        echo_step(echo_exchange(chunks).0, EchoEvent::Read(0), buf) == (
            EchoPhase::Closed { clean: true },
            EchoActionView::Finish(Ok(())),
        ),
    decreases chunks.len(),
{
    if chunks.len() > 0 {
        let rest = chunks.drop_last();
        assert forall|i: int| 0 <= i < rest.len() implies 1 <= #[trigger] rest[i].len()
            <= ECHO_BUFFER_LEN by {
            assert(rest[i] == chunks[i]);
        }
        echo_exchange_returns_the_stream(rest, buf);
        let c = chunks.last();
        assert(1 <= c.len() <= ECHO_BUFFER_LEN);
        assert(c.take(c.len() as usize as int) =~= c);
        assert(rest.push(c) =~= chunks);
    }
}

/// Connections are handled apart: however many there are, each one's
/// handler writes back exactly the bytes of its own peer, and nothing of
/// another's.
pub proof fn connections_keep_their_own_bytes(streams: Seq<Seq<Seq<u8>>>)
    requires
        forall|i: int| 0 <= i < streams.len() ==> valid_reads(#[trigger] streams[i]),
    ensures
        forall|i: int|
            0 <= i < streams.len() ==> echo_writes(#[trigger] streams[i]) == streams[i]
                && echo_exchange(streams[i]).1 == concat(streams[i]),
{
    assert forall|i: int| 0 <= i < streams.len() implies echo_writes(#[trigger] streams[i])
        == streams[i] && echo_exchange(streams[i]).1 == concat(streams[i]) by {
        echo_exchange_returns_the_stream(streams[i], Seq::empty());
    }
}

/// A peer that closes without sending anything ends the handler cleanly,
/// with nothing written; the probe likewise ends cleanly when the server
/// closes.
pub proof fn empty_stream_closes_cleanly(buf: Seq<u8>)
    ensures
        echo_step(EchoPhase::Reading, EchoEvent::Read(0), buf) == (
            EchoPhase::Closed { clean: true },
            EchoActionView::Finish(Ok(())),
        ),
        probe_step(ProbePhase::Relaying, ProbeEvent::Received(0), buf) == (
            ProbePhase::Done { outcome: Ok(()) },
            ProbeActionView::Finish(Ok(())),
        ),
{
}

/// A probe whose connection fails, on verification or otherwise, ends with
/// that error; and the probe never sends anything before its connection is
/// established.
pub proof fn probe_sends_only_when_connected(
    e: TransportError,
    phase: ProbePhase,
    event: ProbeEvent,
    buf: Seq<u8>,
)
    ensures
        probe_step(ProbePhase::Connecting, ProbeEvent::ConnectFailed(e), buf) == (
            ProbePhase::Done { outcome: Err(e) },
            ProbeActionView::Finish(Err(e)),
        ),
        probe_step(phase, event, buf).1 is Send ==> phase == ProbePhase::Connecting && event
            == ProbeEvent::Connected && probe_step(phase, event, buf).1 == ProbeActionView::Send(
            greeting(),
        ),
{
}

/// A failure to bind, an unusable identity included, stops the server before
/// it accepts anything; a failure on one accept or one handshake never stops it.
pub proof fn bind_failures_are_fatal_accept_failures_are_not(e: TransportError)
    ensures
        server_step(ServerPhase::Binding, ServerEvent::BindFailed(e)) == (
            ServerPhase::Stopped { outcome: Err(e) },
            ServerAction::Stop(Err(e)),
        ),
        server_step(ServerPhase::Accepting, ServerEvent::AcceptFailed(e)) == (
            ServerPhase::Accepting,
            ServerAction::Accept,
        ),
{
}

} // verus!
