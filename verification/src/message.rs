//! The message vocabulary shared by the session, the reader actor and the
//! scrollback: a category tag, the queue message carrying it, and the
//! outcome of a non-blocking receive.

use vstd::prelude::*;

verus! {

/// What a message or scrollback record stands for: text the operator sent,
/// text the peer delivered, or the control signal that ends the session.
#[derive(Clone, Copy, PartialEq, Eq, Structural, Debug)]
pub enum Category {
    Sent,
    Received,
    SystemTerminate,
}

/// One message on a messenger queue, and one scrollback record: a category
/// together with its text payload. Control messages carry empty text.
#[derive(Debug)]
pub struct ThreadMessage {
    pub category: Category,
    pub content: String,
}

/// Outcome of a non-blocking receive on a started session: nothing queued
/// yet, or the session has terminated.
#[derive(Clone, Copy, PartialEq, Eq, Structural, Debug)]
pub enum RecvErr {
    Empty,
    Terminate,
}

impl View for ThreadMessage {
    type V = (Category, Seq<char>);

    open spec fn view(&self) -> (Category, Seq<char>) {
        (self.category, self.content@)
    }
}

impl ThreadMessage {
    /// A record of text the local operator sent.
    pub fn sent(content: String) -> (r: ThreadMessage)
        ensures
            r@ == (Category::Sent, content@),
    {
        ThreadMessage { category: Category::Sent, content }
    }

    /// A message carrying text received from the peer.
    pub fn received(content: String) -> (r: ThreadMessage)
        ensures
            r@ == (Category::Received, content@),
    {
        ThreadMessage { category: Category::Received, content }
    }

    /// The control message meaning "this session is ending".
    pub fn terminate() -> (r: ThreadMessage)
        ensures
            r@ == (Category::SystemTerminate, Seq::<char>::empty()),
    {
        ThreadMessage { category: Category::SystemTerminate, content: String::new() }
    }
}

} // verus!
