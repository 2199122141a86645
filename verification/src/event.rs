//! The events that reach the consumer, and the errors.

use vstd::prelude::*;
use crate::op::Op;

verus! {

/// What can go wrong.
#[derive(Clone, Copy, Debug, PartialEq, Eq, Structural)]
pub enum Error {
    /// A session was to start with no path to watch.
    PathNotFound,
    /// The service delivered a path that is not UTF-8 text.
    InvalidPath,
    /// The service delivered the flags held here, one bit of which stands for no known flag.
    UnknownFlags(u32),
    /// The thread of the event loop ended without confirming that the loop had stopped.
    LoopNotFinished,
    /// The call does not fit what the watcher was waiting for.
    OutOfTurn,
}

/// One change, or one failure, as the consumer of the channel sees it.
#[derive(Debug, PartialEq, Eq)]
pub struct Event {
    /// The kinds of change, or what went wrong.
    pub op: Result<Op, Error>,
    /// The path that changed, where one is known.
    pub path: Option<String>,
}

/// An [`Event`] as plain values.
pub struct EventView {
    /// The bits of the kinds of change, or what went wrong.
    pub op: Result<u32, Error>,
    /// The text of the path that changed, where one is known.
    pub path: Option<Seq<char>>,
}

impl View for Event {
    type V = EventView;

    open spec fn view(&self) -> EventView {
        EventView {
            op: match self.op {
                Ok(op) => Ok(op@),
                Err(e) => Err(e),
            },
            path: match self.path {
                Some(path) => Some(path@),
                None => None,
            },
        }
    }
}

} // verus!
