//! The session lifecycle. The session object proper owns the stream, the
//! reader actor's join handle and its end of the messenger; those
//! resources live outside this library. What is modelled and decided here
//! is the lifecycle they follow: handle and messenger are set together by
//! a successful start and cleared together by the one successful
//! shutdown, a receive is only defined on a started session, and a polled
//! message is classified into text, emptiness or termination.

use vstd::prelude::*;

use crate::message::Category;
use crate::message::RecvErr;
use crate::message::ThreadMessage;

verus! {

/// A session operation was used out of its lifecycle: shutting down a
/// session that was never started, or was already shut down.
#[derive(Clone, Copy, PartialEq, Eq, Structural, Debug)]
pub enum SessionErr {
    NotStarted,
}

/// The lifecycle state of a session: whether it currently holds the
/// reader actor's join handle, and whether it holds its messenger
/// endpoint. The session keeps the two in lockstep.
#[derive(Clone, Copy, PartialEq, Eq, Structural, Debug)]
pub struct SessionState {
    pub has_reader: bool,
    pub has_messenger: bool,
}

/// The state after a shutdown attempt: a started session gives up both
/// its handles, an unstarted one is left as it is.
pub open spec fn after_shutdown(s: SessionState) -> SessionState {
    if s.started() {
        SessionState { has_reader: false, has_messenger: false }
    } else {
        s
    }
}

/// Whether a shutdown attempt in state `s` is accepted, and so joins the
/// reader actor.
pub open spec fn shutdown_accepted(s: SessionState) -> bool {
    s.started()
}

impl SessionState {
    /// The invariant every session keeps: the reader actor's join handle
    /// and the messenger endpoint are held together or not at all, so
    /// the actor is joined exactly once, by the one accepted shutdown.
    pub open spec fn wf(&self) -> bool {
        self.has_reader == self.has_messenger
    }

    /// Whether the session has been started and not yet shut down.
    pub open spec fn started(&self) -> bool {
        self.has_reader && self.has_messenger
    }

    /// The state of a freshly created, not yet started session.
    pub fn new() -> (r: SessionState)
        ensures
            r.wf(),
            !r.started(),
    {
        SessionState { has_reader: false, has_messenger: false }
    }

    /// Records that a start succeeded: the reader actor was spawned and
    /// the messenger endpoint stored, together. A start that fails to
    /// duplicate the stream spawns nothing and leaves the state alone,
    /// so there is no transition for it.
    pub fn mark_started(&mut self)
        requires
            old(self).wf(),
            !old(self).started(),
        ensures
            final(self).wf(),
            final(self).started(),
    {
        self.has_reader = true;
        self.has_messenger = true;
    }

    /// Decides a shutdown attempt: accepted exactly when the session is
    /// started, and then both handles are given up at once; on a session
    /// never started, or already shut down, it reports `NotStarted` and
    /// changes nothing.
    pub fn shutdown(&mut self) -> (r: Result<(), SessionErr>)
        requires
            old(self).wf(),
        ensures
            final(self).wf(),
            *final(self) == after_shutdown(*old(self)),
            r is Ok <==> shutdown_accepted(*old(self)),
            r is Err ==> r == Err::<(), SessionErr>(SessionErr::NotStarted),
    {
        if self.has_reader && self.has_messenger {
            self.has_reader = false;
            self.has_messenger = false;
            Ok(())
        } else {
            Err(SessionErr::NotStarted)
        }
    }

    /// Classifies the result of one non-blocking poll of the session's
    /// messenger endpoint, defined only on a started session: nothing
    /// queued is `Empty`, the terminate signal ends the session, and any
    /// other message yields its text.
    pub fn classify_recv(&self, polled: Option<ThreadMessage>) -> (r: Result<String, RecvErr>)
        requires
            self.started(),
        ensures
            polled is None ==> r == Err::<String, RecvErr>(RecvErr::Empty),
            polled matches Some(m) ==> if m.category == Category::SystemTerminate {
                r == Err::<String, RecvErr>(RecvErr::Terminate)
            } else {
                r matches Ok(c) && c@ == m.content@
            },
    {
        match polled {
            None => Err(RecvErr::Empty),
            Some(m) => match m.category {
                Category::SystemTerminate => Err(RecvErr::Terminate),
                _ => Ok(m.content),
            },
        }
    }
}

/// A shutdown joins the reader actor at most once: after the one
/// accepted shutdown, and without a new start, every further attempt is
/// refused with `NotStarted` and leaves the state unchanged.
pub proof fn lemma_shutdown_at_most_once(s: SessionState)
    requires
        s.wf(),
    ensures
        shutdown_accepted(s) ==> !shutdown_accepted(after_shutdown(s)),
        after_shutdown(after_shutdown(s)) == after_shutdown(s),
{
}

} // verus!
