//! Core logic of a minimal two-peer, line-oriented chat session: the
//! message vocabulary exchanged between the foreground driver and the
//! background reader actor, the reader actor's state machine, the session
//! lifecycle, the bounded scrollback display, and the driver's per-tick
//! decisions. Socket, thread and terminal handling live outside this
//! library and feed it plain values.

pub mod driver;
pub mod message;
pub mod reader;
pub mod scrollback;
pub mod session;
pub mod wire;
