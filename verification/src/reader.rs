//! The reader actor's state machine. The actor itself runs outside this
//! library: each loop iteration it polls its messenger for a pending
//! shutdown request and, only when none is pending, attempts one timed
//! read from its duplicated stream handle. The outcome of an iteration is
//! reported here as a `ReadEvent`, and `reader_step` decides the next
//! state and which message, if any, goes back on the messenger.
//!
//! Each chunk is decoded as UTF-8 on its own; a chunk that is not valid
//! UTF-8 — including a read that splits a multi-byte character across two
//! chunks — is a fatal decode failure. Nothing is buffered and no lossy
//! recovery is attempted. A fatal failure, whether an undecodable chunk
//! or a non-timeout read error, degrades to the same observable state as
//! a peer disconnect: the actor forwards the terminate signal and stops,
//! so the driver always learns that the session ended.

use vstd::prelude::*;
use vstd::utf8::decode_utf8;
use vstd::utf8::valid_utf8;

use crate::message::Category;
use crate::message::ThreadMessage;

verus! {

/// The actor's two states: still reading, or terminally stopped.
#[derive(Clone, Copy, PartialEq, Eq, Structural, Debug)]
pub enum ReaderState {
    Reading,
    Stopped,
}

/// What one iteration of the actor's loop observed: a shutdown request
/// pending on the messenger, or the outcome of one timed read — the
/// timeout elapsed, the read failed, the peer closed its side (a
/// zero-length read), or a chunk of bytes arrived.
#[derive(Debug)]
pub enum ReadEvent {
    ShutdownRequested,
    Timeout,
    ReadFailed,
    PeerClosed,
    BytesArrived(Vec<u8>),
}

/// The state the actor moves to on an event. Stopped is terminal. While
/// reading: a shutdown request, a non-timeout read failure, a peer close
/// and undecodable bytes all stop the actor; a timeout and decodable
/// bytes keep it reading.
pub open spec fn next_state(s: ReaderState, e: ReadEvent) -> ReaderState {
    match s {
        ReaderState::Stopped => ReaderState::Stopped,
        ReaderState::Reading => match e {
            ReadEvent::ShutdownRequested => ReaderState::Stopped,
            ReadEvent::Timeout => ReaderState::Reading,
            ReadEvent::ReadFailed => ReaderState::Stopped,
            ReadEvent::PeerClosed => ReaderState::Stopped,
            ReadEvent::BytesArrived(b) => if valid_utf8(b@) {
                ReaderState::Reading
            } else {
                ReaderState::Stopped
            },
        },
    }
}

/// The message the actor forwards on an event, as category and text: the
/// decoded text on a valid chunk, and the terminate signal on a peer
/// close, on a non-timeout read failure and on an undecodable chunk —
/// every fatal outcome is surfaced to the driver like a disconnect. A
/// stopped actor forwards nothing, a timeout forwards nothing, and a
/// pending shutdown request is honoured without emitting anything: the
/// local side already knows it is shutting down.
pub open spec fn emitted(s: ReaderState, e: ReadEvent) -> Option<(Category, Seq<char>)> {
    match s {
        ReaderState::Stopped => None,
        ReaderState::Reading => match e {
            ReadEvent::PeerClosed => Some((Category::SystemTerminate, Seq::<char>::empty())),
            ReadEvent::ReadFailed => Some((Category::SystemTerminate, Seq::<char>::empty())),
            ReadEvent::BytesArrived(b) => if valid_utf8(b@) {
                Some((Category::Received, decode_utf8(b@)))
            } else {
                Some((Category::SystemTerminate, Seq::<char>::empty()))
            },
            _ => None,
        },
    }
}

/// The state the actor is in after a whole sequence of events.
pub open spec fn run(s: ReaderState, es: Seq<ReadEvent>) -> ReaderState
    decreases es.len(),
{
    if es.len() == 0 {
        s
    } else {
        next_state(run(s, es.drop_last()), es.last())
    }
}

/// Once stopped, the actor stays stopped and never forwards another
/// message, whatever events follow: after a peer disconnect or a fatal
/// error, no further `Received` message is ever produced.
pub proof fn lemma_stopped_is_terminal(es: Seq<ReadEvent>, e: ReadEvent)
    ensures
        run(ReaderState::Stopped, es) == ReaderState::Stopped,
        emitted(run(ReaderState::Stopped, es), e) is None,
    decreases es.len(),
{
    if es.len() > 0 {
        lemma_stopped_is_terminal(es.drop_last(), e);
    }
}

/// A fatal stream error degrades to the same observable state as a peer
/// disconnect: a non-timeout read failure, and an undecodable chunk,
/// make the actor emit the same terminate signal and stop, exactly as a
/// peer close does — the driver cannot tell them apart, and is never
/// left polling a dead session.
pub proof fn lemma_fatal_error_reads_as_disconnect(b: Vec<u8>)
    requires
        !valid_utf8(b@),
    ensures
        next_state(ReaderState::Reading, ReadEvent::ReadFailed) == next_state(
            ReaderState::Reading,
            ReadEvent::PeerClosed,
        ),
        emitted(ReaderState::Reading, ReadEvent::ReadFailed) == emitted(
            ReaderState::Reading,
            ReadEvent::PeerClosed,
        ),
        next_state(ReaderState::Reading, ReadEvent::BytesArrived(b)) == next_state(
            ReaderState::Reading,
            ReadEvent::PeerClosed,
        ),
        emitted(ReaderState::Reading, ReadEvent::BytesArrived(b)) == emitted(
            ReaderState::Reading,
            ReadEvent::PeerClosed,
        ),
{
}

/// A peer close makes the actor emit exactly the terminate signal and
/// stop, and from then on no event — in particular no arriving bytes —
/// ever yields another message.
pub proof fn lemma_peer_close_ends_stream(es: Seq<ReadEvent>, e: ReadEvent)
    ensures
        emitted(ReaderState::Reading, ReadEvent::PeerClosed) == Some(
            (Category::SystemTerminate, Seq::<char>::empty()),
        ),
        run(next_state(ReaderState::Reading, ReadEvent::PeerClosed), es) == ReaderState::Stopped,
        emitted(run(next_state(ReaderState::Reading, ReadEvent::PeerClosed), es), e) is None,
{
    lemma_stopped_is_terminal(es, e);
}

/// A pending shutdown request is honoured before any read: the actor
/// stops at once and emits nothing, so a shutdown never produces a
/// spurious `Received` message.
pub proof fn lemma_shutdown_request_is_silent(es: Seq<ReadEvent>, e: ReadEvent)
    ensures
        next_state(ReaderState::Reading, ReadEvent::ShutdownRequested) == ReaderState::Stopped,
        emitted(ReaderState::Reading, ReadEvent::ShutdownRequested) is None,
        emitted(run(next_state(ReaderState::Reading, ReadEvent::ShutdownRequested), es), e)
            is None,
{
    lemma_stopped_is_terminal(es, e);
}

/// Relies on `String::from_utf8`: it succeeds exactly on input that is
/// valid UTF-8 and then yields the characters those bytes encode.
#[verifier::external_body]
fn decode_text(bytes: Vec<u8>) -> (r: Option<String>)
    ensures
        r is Some <==> valid_utf8(bytes@),
        r matches Some(s) ==> s@ == decode_utf8(bytes@),
{
    String::from_utf8(bytes).ok()
}

/// One decision step of the reader actor: from the current state and the
/// event one loop iteration observed, the next state and the message, if
/// any, to forward to the session's end of the messenger.
pub fn reader_step(state: ReaderState, event: ReadEvent) -> (r: (
    ReaderState,
    Option<ThreadMessage>,
))
    ensures
        r.0 == next_state(state, event),
        r.1 is Some <==> emitted(state, event) is Some,
        r.1 matches Some(m) ==> emitted(state, event) == Some(m@),
{
    match state {
        ReaderState::Stopped => (ReaderState::Stopped, None),
        ReaderState::Reading => match event {
            ReadEvent::ShutdownRequested => (ReaderState::Stopped, None),
            ReadEvent::Timeout => (ReaderState::Reading, None),
            ReadEvent::ReadFailed => (ReaderState::Stopped, Some(ThreadMessage::terminate())),
            ReadEvent::PeerClosed => (ReaderState::Stopped, Some(ThreadMessage::terminate())),
            ReadEvent::BytesArrived(bytes) => match decode_text(bytes) {
                Some(text) => (ReaderState::Reading, Some(ThreadMessage::received(text))),
                None => (ReaderState::Stopped, Some(ThreadMessage::terminate())),
            },
        },
    }
}

} // verus!
