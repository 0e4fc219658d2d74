//! The session driver's per-tick decisions. The driver's loop — reading
//! operator input, writing to the socket, redrawing the screen, pacing
//! the busy-poll — runs outside this library; each tick it hands the
//! operator's line, and the outcome of the session's non-blocking
//! receive, to the functions here, which update the scrollback and say
//! what to do next.

use vstd::prelude::*;

use crate::message::Category;
use crate::message::RecvErr;
use crate::message::ThreadMessage;
use crate::scrollback::ScrollbackBuffer;
use crate::scrollback::retained;

verus! {

/// What the driver does with an operator-typed line: end the session, or
/// transmit the line to the peer.
#[derive(Debug)]
pub enum LocalStep {
    Quit,
    Transmit(String),
}

/// The characters of the exit sentinel the operator types to end the
/// session.
pub open spec fn exit_sentinel_text() -> Seq<char> {
    ":q"@
}

/// The exit sentinel as a string.
pub fn exit_sentinel() -> (r: String)
    ensures
        r@ == exit_sentinel_text(),
{
    String::from_str(":q")
}

/// Whether a line is the exit sentinel.
pub fn is_exit_sentinel(line: &String) -> (r: bool)
    ensures
        r == (line@ == exit_sentinel_text()),
{
    let sentinel = exit_sentinel();
    line.eq(&sentinel)
}

/// Decides one operator-typed line: the exit sentinel asks for the
/// shutdown handshake and leaves the scrollback alone; any other line is
/// recorded in the scrollback as sent and handed back for transmission.
pub fn on_operator_line(buffer: &mut ScrollbackBuffer, line: String) -> (r: LocalStep)
    requires
        old(buffer).wf(),
    ensures
        final(buffer).wf(),
        if line@ == exit_sentinel_text() {
            r is Quit && final(buffer)@ == old(buffer)@
        } else {
            (r matches LocalStep::Transmit(t) && t@ == line@) && final(buffer)@ == retained(
                old(buffer)@.push((Category::Sent, line@)),
            )
        },
{
    if is_exit_sentinel(&line) {
        LocalStep::Quit
    } else {
        let text = line.clone();
        buffer.append(ThreadMessage::sent(text));
        LocalStep::Transmit(line)
    }
}

/// Decides the outcome of one non-blocking receive: delivered text is
/// recorded in the scrollback as received, an empty poll changes
/// nothing, and a terminate outcome changes nothing but tells the driver
/// to leave its loop — the session already ended on the other side.
pub fn on_recv_outcome(buffer: &mut ScrollbackBuffer, outcome: Result<String, RecvErr>) -> (quit:
    bool)
    requires
        old(buffer).wf(),
    ensures
        final(buffer).wf(),
        outcome matches Ok(t) ==> (!quit && final(buffer)@ == retained(
            old(buffer)@.push((Category::Received, t@)),
        )),
        outcome matches Err(e) ==> (final(buffer)@ == old(buffer)@ && quit == (e
            == RecvErr::Terminate)),
{
    match outcome {
        Ok(text) => {
            buffer.append(ThreadMessage::received(text));
            false
        },
        Err(RecvErr::Terminate) => true,
        Err(RecvErr::Empty) => false,
    }
}

} // verus!
