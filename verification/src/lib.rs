//! File system change notifications through the native FSEvents service: the logic of a watch
//! session, without the calls into the service.
//!
//! [`FsEventWatcher`] keeps the watched paths and the state of the session and says, step by
//! step, what is to be done with the service. [`callback`] turns the raw records that the service
//! delivers into [`Event`]s, and [`translate_flags`] turns its change flags into the portable
//! change kinds of [`Op`].

pub mod bridge;
pub mod event;
pub mod flags;
pub mod op;
pub mod paths;
pub mod protocol;
pub mod watcher;

pub use bridge::callback;
pub use event::{Error, Event};
pub use flags::translate_flags;
pub use op::Op;
pub use watcher::FsEventWatcher;
