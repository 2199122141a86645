//! The watch-session manager.
//!
//! The manager holds the watched paths and the state of the session. It decides; it performs
//! nothing. Each call returns an [`Action`]: what the caller has to do with the native service
//! next. The caller does it and reports the outcome with [`FsEventWatcher::started`] or
//! [`FsEventWatcher::stopped`], which return the action after that, until one is
//! [`Action::Done`].

use vstd::prelude::*;
use crate::event::Error;
use crate::paths::{added, distinct, removed, texts, WatchedPaths};

verus! {

/// The change baseline of a new subscription: only changes from now on are reported.
pub const SINCE_NOW: u64 = 0xffff_ffff_ffff_ffff;

/// Creation flag: deliver the first change at once, and hold back only what follows it.
pub const NO_DEFER: u32 = 0x0000_0002;

/// Creation flag: report changes file by file.
pub const FILE_EVENTS: u32 = 0x0000_0010;

/// The creation flags of every subscription.
pub const CREATE_FLAGS: u32 = FILE_EVENTS | NO_DEFER;

/// The milliseconds for which the service may hold a change back: none.
pub const LATENCY_MILLIS: u64 = 0;

/// What follows once the running session has stopped.
#[derive(Clone, Copy, Debug, PartialEq, Eq, Structural)]
pub enum Resume {
    /// Nothing: the watcher stays idle.
    Rest,
    /// A new session, which needs a path.
    Start,
    /// A new session if there is a path, and nothing if there is none.
    StartIfAny,
}

/// The state of the session.
#[derive(Clone, Copy, Debug, PartialEq, Eq, Structural)]
pub enum Session {
    /// No session, and nothing asked of the caller.
    Idle,
    /// The caller was asked to start a session and has not yet handed over the loop handle.
    Starting,
    /// A session runs on the event loop `runloop`.
    Running { runloop: usize },
    /// The caller was asked to stop the session and has not yet reported how that went.
    Stopping { then: Resume },
}

/// What a new subscription is created with.
#[derive(Debug, PartialEq, Eq)]
pub struct StreamRequest {
    /// The paths to observe.
    pub paths: Vec<String>,
    /// The change baseline.
    pub since_when: u64,
    /// The milliseconds for which the service may hold a change back.
    pub latency_millis: u64,
    /// The creation flags.
    pub flags: u32,
}

/// A [`StreamRequest`] as plain values.
pub struct RequestView {
    /// The texts of the paths to observe.
    pub paths: Seq<Seq<char>>,
    /// The change baseline.
    pub since_when: u64,
    /// The milliseconds for which the service may hold a change back.
    pub latency_millis: u64,
    /// The creation flags.
    pub flags: u32,
}

impl View for StreamRequest {
    type V = RequestView;

    open spec fn view(&self) -> RequestView {
        RequestView {
            paths: texts(self.paths@),
            since_when: self.since_when,
            latency_millis: self.latency_millis,
            flags: self.flags,
        }
    }
}

/// What the caller has to do next.
#[derive(Debug, PartialEq, Eq)]
pub enum Action {
    /// Nothing: the operation has ended, with this result.
    Done(Result<(), Error>),
    /// Signal the event loop `runloop` to end, wait until its thread confirms that it has, and
    /// report with [`FsEventWatcher::stopped`].
    Stop { runloop: usize },
    /// Create the subscription, start a thread that runs an event loop for it, wait for the
    /// handle of that loop, and report it with [`FsEventWatcher::started`].
    Start(StreamRequest),
}

/// An [`Action`] as plain values.
pub enum ActionView {
    /// The operation has ended, with this result.
    Done(Result<(), Error>),
    /// The event loop `runloop` is to be stopped.
    Stop { runloop: usize },
    /// A session is to be started over the subscription that is described.
    Start(RequestView),
}

impl View for Action {
    type V = ActionView;

    open spec fn view(&self) -> ActionView {
        match self {
            Action::Done(result) => ActionView::Done(*result),
            Action::Stop { runloop } => ActionView::Stop { runloop: *runloop },
            Action::Start(request) => ActionView::Start(request@),
        }
    }
}

/// The request for a subscription over `paths`: changes from now on, delivered without delay,
/// file by file.
pub open spec fn request_for(paths: Seq<Seq<char>>) -> RequestView {
    RequestView {
        paths,
        since_when: SINCE_NOW,
        latency_millis: LATENCY_MILLIS,
        flags: CREATE_FLAGS,
    }
}

/// The watcher as plain values.
pub struct Model {
    /// The watched paths, in their order.
    pub paths: Seq<Seq<char>>,
    /// The state of the session.
    pub session: Session,
}

impl Model {
    /// Whether no two paths are the same but for case.
    pub open spec fn wf(self) -> bool {
        distinct(self.paths)
    }

    /// Whether a session runs.
    pub open spec fn running(self) -> bool {
        self.session is Running
    }

    /// Whether the caller still owes the outcome of an action.
    pub open spec fn busy(self) -> bool {
        self.session is Starting || self.session is Stopping
    }

    /// The same paths in the session state `session`.
    pub open spec fn at(self, session: Session) -> Model {
        Model { paths: self.paths, session }
    }

    /// The same session state over the paths `paths`.
    pub open spec fn over(self, paths: Seq<Seq<char>>) -> Model {
        Model { paths, session: self.session }
    }

    /// The start of a session where none runs: refused without a path, which is an error unless
    /// `lenient`; else asked of the caller.
    pub open spec fn begin(self, lenient: bool) -> (Model, ActionView) {
        if self.paths.len() == 0 {
            (
                self.at(Session::Idle),
                ActionView::Done(
                    if lenient {
                        Ok(())
                    } else {
                        Err(Error::PathNotFound)
                    },
                ),
            )
        } else {
            (self.at(Session::Starting), ActionView::Start(request_for(self.paths)))
        }
    }

    /// Starting a session: on an idle watcher as [`Model::begin`] says, without leniency. Where
    /// a session runs, no second one is started and nothing changes; the result is success, or
    /// [`Error::PathNotFound`] if no path is left. While the caller owes a report the call is
    /// out of turn.
    pub open spec fn run(self) -> (Model, ActionView) {
        match self.session {
            Session::Idle => self.begin(false),
            Session::Running { .. } => (
                self,
                ActionView::Done(
                    if self.paths.len() == 0 {
                        Err(Error::PathNotFound)
                    } else {
                        Ok(())
                    },
                ),
            ),
            _ => (self, ActionView::Done(Err(Error::OutOfTurn))),
        }
    }

    /// The end of the session that runs on `runloop`, with `then` to follow.
    pub open spec fn end(self, runloop: usize, then: Resume) -> (Model, ActionView) {
        (self.at(Session::Stopping { then }), ActionView::Stop { runloop })
    }

    /// Stopping: nothing on an idle watcher; on a running one the stop of its loop is asked of
    /// the caller, with rest to follow. While the caller owes a report the call is out of turn.
    pub open spec fn stop(self) -> (Model, ActionView) {
        match self.session {
            Session::Idle => (self, ActionView::Done(Ok(()))),
            Session::Running { runloop } => self.end(runloop, Resume::Rest),
            _ => (self, ActionView::Done(Err(Error::OutOfTurn))),
        }
    }

    /// Watching `path`: the path is added, the loop that runs is stopped first, and a session
    /// over the paths is started. While the caller owes a report the call is out of turn and
    /// adds nothing.
    pub open spec fn watch(self, path: Seq<char>) -> (Model, ActionView) {
        match self.session {
            Session::Idle => self.over(added(self.paths, path)).begin(false),
            Session::Running { runloop } => self.over(added(self.paths, path)).end(
                runloop,
                Resume::Start,
            ),
            _ => (self, ActionView::Done(Err(Error::OutOfTurn))),
        }
    }

    /// Unwatching `path`: the path is removed, the loop that runs is stopped first, and a session
    /// over the paths that are left is started if there are any. While the caller owes a report
    /// the call is out of turn and removes nothing.
    pub open spec fn unwatch(self, path: Seq<char>) -> (Model, ActionView) {
        match self.session {
            Session::Idle => self.over(removed(self.paths, path)).begin(true),
            Session::Running { runloop } => self.over(removed(self.paths, path)).end(
                runloop,
                Resume::StartIfAny,
            ),
            _ => (self, ActionView::Done(Err(Error::OutOfTurn))),
        }
    }

    /// The report of a start: the session runs on `runloop` from now on. Where no start was
    /// asked for, the report is out of turn and changes nothing.
    pub open spec fn started(self, runloop: usize) -> (Model, ActionView) {
        match self.session {
            Session::Starting => (
                self.at(Session::Running { runloop }),
                ActionView::Done(Ok(())),
            ),
            _ => (self, ActionView::Done(Err(Error::OutOfTurn))),
        }
    }

    /// The report of a stop. Where it was not confirmed, the operation ends with
    /// [`Error::LoopNotFinished`] and the watcher is idle. Where it was, what was to follow
    /// follows: rest, or a start as [`Model::begin`] says, lenient after an unwatch. Where no
    /// stop was asked for, the report is out of turn and changes nothing.
    pub open spec fn stopped(self, confirmed: bool) -> (Model, ActionView) {
        match self.session {
            Session::Stopping { then } => if !confirmed {
                (self.at(Session::Idle), ActionView::Done(Err(Error::LoopNotFinished)))
            } else {
                match then {
                    Resume::Rest => (self.at(Session::Idle), ActionView::Done(Ok(()))),
                    Resume::Start => self.at(Session::Idle).begin(false),
                    Resume::StartIfAny => self.at(Session::Idle).begin(true),
                }
            },
            _ => (self, ActionView::Done(Err(Error::OutOfTurn))),
        }
    }

    /// The result that `action` ends with, if it ends the operation.
    pub open spec fn result_of(action: ActionView) -> Result<(), Error> {
        match action {
            ActionView::Done(result) => result,
            _ => Err(Error::OutOfTurn),
        }
    }

    /// The watcher and the result of the operation once the caller has performed `action` and
    /// every action that followed from it, each with success: a stop was confirmed, and a start
    /// was answered with the loop handle `runloop`.
    pub open spec fn settle(self, action: ActionView, runloop: usize) -> (Model, Result<(), Error>) {
        match action {
            ActionView::Done(result) => (self, result),
            ActionView::Start(_) => {
                let (last, answer) = self.started(runloop);
                (last, Model::result_of(answer))
            },
            ActionView::Stop { .. } => {
                let (next, answer) = self.stopped(true);
                match answer {
                    ActionView::Start(_) => {
                        let (last, answer) = next.started(runloop);
                        (last, Model::result_of(answer))
                    },
                    _ => (next, Model::result_of(answer)),
                }
            },
        }
    }
}

/// The watch-session manager: the watched paths and the state of the session.
pub struct FsEventWatcher {
    paths: WatchedPaths,
    session: Session,
}

impl View for FsEventWatcher {
    type V = Model;

    closed spec fn view(&self) -> Model {
        Model { paths: self.paths@, session: self.session }
    }
}

impl FsEventWatcher {
    /// A watcher with no path and no session.
    pub fn new() -> (watcher: FsEventWatcher)
        ensures
            watcher@.paths.len() == 0,
            watcher@.session == Session::Idle,
            watcher@.wf(),
    {
        FsEventWatcher { paths: WatchedPaths::new(), session: Session::Idle }
    }

    /// Whether a session runs.
    pub fn is_running(&self) -> (r: bool)
        ensures
            r == self@.running(),
    {
        match self.session {
            Session::Running { .. } => true,
            _ => false,
        }
    }

    /// Whether the caller still owes the outcome of an action.
    pub fn is_busy(&self) -> (r: bool)
        ensures
            r == self@.busy(),
    {
        match self.session {
            Session::Starting => true,
            Session::Stopping { .. } => true,
            _ => false,
        }
    }

    /// The state of the session.
    pub fn session(&self) -> (s: Session)
        ensures
            s == self@.session,
    {
        self.session
    }

    /// The watched paths.
    pub fn paths(&self) -> (paths: &WatchedPaths)
        ensures
            paths@ == self@.paths,
            self@.wf(),
    {
        proof {
            use_type_invariant(&self.paths);
        }
        &self.paths
    }

    /// Adds `path` to the watched paths, unless it is among them already, in whatever case. The
    /// session is left as it is.
    pub fn add_path(&mut self, path: &str)
        ensures
            final(self)@ == old(self)@.over(added(old(self)@.paths, path@)),
            final(self)@.wf(),
    {
        self.paths.add_path(path);
    }

    /// Removes `path`, in whatever case, from the watched paths. The session is left as it is.
    pub fn remove_path(&mut self, path: &str)
        ensures
            final(self)@ == old(self)@.over(removed(old(self)@.paths, path@)),
            final(self)@.wf(),
    {
        self.paths.remove_path(path);
    }

    /// Starts a session where none runs.
    fn begin(&mut self, lenient: bool) -> (action: Action)
        ensures
            (final(self)@, action@) == old(self)@.begin(lenient),
            final(self)@.wf(),
    {
        proof {
            use_type_invariant(&self.paths);
        }
        if self.paths.is_empty() {
            self.session = Session::Idle;
            if lenient {
                Action::Done(Ok(()))
            } else {
                Action::Done(Err(Error::PathNotFound))
            }
        } else {
            self.session = Session::Starting;
            Action::Start(
                StreamRequest {
                    paths: self.paths.to_vec(),
                    since_when: SINCE_NOW,
                    latency_millis: LATENCY_MILLIS,
                    flags: CREATE_FLAGS,
                },
            )
        }
    }

    /// Starts a session over the watched paths. Without a path this fails with
    /// [`Error::PathNotFound`]. Where a session runs already, no second one is started.
    pub fn run(&mut self) -> (action: Action)
        ensures
            (final(self)@, action@) == old(self)@.run(),
            final(self)@.wf(),
    {
        proof {
            use_type_invariant(&self.paths);
        }
        match self.session {
            Session::Idle => self.begin(false),
            Session::Running { .. } => {
                if self.paths.is_empty() {
                    Action::Done(Err(Error::PathNotFound))
                } else {
                    Action::Done(Ok(()))
                }
            },
            _ => Action::Done(Err(Error::OutOfTurn)),
        }
    }

    /// Stops the session, if one runs.
    pub fn stop(&mut self) -> (action: Action)
        ensures
            (final(self)@, action@) == old(self)@.stop(),
            final(self)@.wf(),
    {
        proof {
            use_type_invariant(&self.paths);
        }
        match self.session {
            Session::Idle => Action::Done(Ok(())),
            Session::Running { runloop } => {
                self.session = Session::Stopping { then: Resume::Rest };
                Action::Stop { runloop }
            },
            _ => Action::Done(Err(Error::OutOfTurn)),
        }
    }

    /// Adds `path` and starts a session over the paths, after stopping the one that runs.
    pub fn watch(&mut self, path: &str) -> (action: Action)
        ensures
            (final(self)@, action@) == old(self)@.watch(path@),
            final(self)@.wf(),
    {
        proof {
            use_type_invariant(&self.paths);
        }
        match self.session {
            Session::Idle => {
                self.paths.add_path(path);
                self.begin(false)
            },
            Session::Running { runloop } => {
                self.paths.add_path(path);
                self.session = Session::Stopping { then: Resume::Start };
                Action::Stop { runloop }
            },
            _ => Action::Done(Err(Error::OutOfTurn)),
        }
    }

    /// Removes `path` and starts a session over the paths that are left, after stopping the one
    /// that runs. Where no path is left, the watcher stays idle, and that is no error.
    pub fn unwatch(&mut self, path: &str) -> (action: Action)
        ensures
            (final(self)@, action@) == old(self)@.unwatch(path@),
            final(self)@.wf(),
    {
        proof {
            use_type_invariant(&self.paths);
        }
        match self.session {
            Session::Idle => {
                self.paths.remove_path(path);
                self.begin(true)
            },
            Session::Running { runloop } => {
                self.paths.remove_path(path);
                self.session = Session::Stopping { then: Resume::StartIfAny };
                Action::Stop { runloop }
            },
            _ => Action::Done(Err(Error::OutOfTurn)),
        }
    }

    /// Takes the handle of the event loop that the caller has started.
    pub fn started(&mut self, runloop: usize) -> (action: Action)
        ensures
            (final(self)@, action@) == old(self)@.started(runloop),
            final(self)@.wf(),
    {
        proof {
            use_type_invariant(&self.paths);
        }
        match self.session {
            Session::Starting => {
                self.session = Session::Running { runloop };
                Action::Done(Ok(()))
            },
            _ => Action::Done(Err(Error::OutOfTurn)),
        }
    }

    /// Takes the outcome of stopping the event loop: `confirmed` says whether its thread has
    /// signalled that it is done.
    pub fn stopped(&mut self, confirmed: bool) -> (action: Action)
        ensures
            (final(self)@, action@) == old(self)@.stopped(confirmed),
            final(self)@.wf(),
    {
        proof {
            use_type_invariant(&self.paths);
        }
        match self.session {
            Session::Stopping { then } => {
                self.session = Session::Idle;
                if !confirmed {
                    Action::Done(Err(Error::LoopNotFinished))
                } else {
                    match then {
                        Resume::Rest => Action::Done(Ok(())),
                        Resume::Start => self.begin(false),
                        Resume::StartIfAny => self.begin(true),
                    }
                }
            },
            _ => Action::Done(Err(Error::OutOfTurn)),
        }
    }
}

} // verus!
