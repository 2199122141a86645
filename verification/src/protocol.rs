//! What holds of the exchange between the watcher and its caller, for every watcher and every
//! path. Each statement is about [`Model`], the plain values that the contracts of
//! [`FsEventWatcher`](crate::watcher::FsEventWatcher) speak of.

use vstd::prelude::*;
use crate::event::Error;
use crate::paths::{
    added, added_distinct, added_twice, removed, removed_after_added, removed_distinct, same_path,
    same_path_is_equivalence,
};
use crate::watcher::{request_for, ActionView, Model, Session};

verus! {

/// The operations that a caller may begin. The two reports, of a start and of a stop, are not
/// among them.
pub enum Call {
    /// Start a session.
    Run,
    /// Stop the session.
    Stop,
    /// Watch the path.
    Watch(Seq<char>),
    /// Unwatch the path.
    Unwatch(Seq<char>),
}

/// What the watcher does on `call`.
pub open spec fn on_call(m: Model, call: Call) -> (Model, ActionView) {
    match call {
        Call::Run => m.run(),
        Call::Stop => m.stop(),
        Call::Watch(path) => m.watch(path),
        Call::Unwatch(path) => m.unwatch(path),
    }
}

/// With a path to watch, starting a session succeeds, and a session runs from then on, over the
/// same paths. This is so whether or not one ran before.
pub proof fn run_starts_a_session(m: Model, runloop: usize)
    requires
        !m.busy(),
        m.paths.len() > 0,
    ensures
        ({
            let (begun, action) = m.run();
            let (last, result) = begun.settle(action, runloop);
            &&& result == Ok::<(), Error>(())
            &&& last.running()
            &&& last.paths == m.paths
            &&& m.session is Idle ==> action == ActionView::Start(request_for(m.paths))
                && last.session == Session::Running { runloop }
        }),
{
}

/// Without a path, starting a session fails with [`Error::PathNotFound`], and nothing changes: a
/// watcher that was not running is not running after it.
pub proof fn run_needs_a_path(m: Model)
    requires
        !m.busy(),
        m.paths.len() == 0,
    ensures
        m.run() == (m, ActionView::Done(Err(Error::PathNotFound))),
        !m.running() ==> !m.run().0.running(),
{
}

/// Stopping a watcher that does not run, be it new or stopped before, changes nothing and asks
/// nothing of the caller, so there is nothing to wait for. Stopping one that runs leaves it
/// idle, with its paths, so that stopping it a second time is of the first kind.
pub proof fn stop_is_idempotent(m: Model, runloop: usize)
    requires
        !m.busy(),
    ensures
        m.session is Idle ==> m.stop() == (m, ActionView::Done(Ok(()))),
        ({
            let (ending, action) = m.stop();
            let (stopped, result) = ending.settle(action, runloop);
            &&& result == Ok::<(), Error>(())
            &&& stopped == m.at(Session::Idle)
            &&& stopped.stop() == (stopped, ActionView::Done(Ok(())))
        }),
{
}

/// A session that runs is never dropped without the handshake: stopping it asks the caller to
/// stop its loop, the watcher counts as stopped only after the report, and it is idle with a
/// success only if the stop was confirmed.
pub proof fn stop_asks_for_the_handshake(m: Model, runloop: usize, confirmed: bool)
    requires
        m.session == (Session::Running { runloop }),
    ensures
        ({
            let (ending, action) = m.stop();
            let (last, answer) = ending.stopped(confirmed);
            &&& action == ActionView::Stop { runloop }
            &&& ending.busy()
            &&& !ending.running()
            &&& last == m.at(Session::Idle)
            &&& answer == ActionView::Done(
                if confirmed {
                    Ok(())
                } else {
                    Err(Error::LoopNotFinished)
                },
            )
        }),
{
}

/// Watching a path and then unwatching it, in whatever case, succeeds both times and leaves the
/// paths that unwatching alone would have left. A session runs after it exactly if a path is
/// left; a watcher that had no path before is idle and has none after.
pub proof fn watch_then_unwatch(
    m: Model,
    path: Seq<char>,
    other: Seq<char>,
    first: usize,
    second: usize,
)
    requires
        !m.busy(),
        same_path(path, other),
    ensures
        ({
            let (adding, start) = m.watch(path);
            let (watching, watched) = adding.settle(start, first);
            let (removing, stop) = watching.unwatch(other);
            let (last, unwatched) = removing.settle(stop, second);
            &&& watched == Ok::<(), Error>(())
            &&& watching.session == Session::Running { runloop: first }
            &&& watching.paths == added(m.paths, path)
            &&& unwatched == Ok::<(), Error>(())
            &&& last.paths == removed(m.paths, other)
            &&& last.session == if last.paths.len() == 0 {
                Session::Idle
            } else {
                Session::Running { runloop: second }
            }
            &&& m.paths.len() == 0 ==> last.paths.len() == 0 && last.session == Session::Idle
        }),
{
    removed_after_added(m.paths, path, other);
}

/// Watching the same path twice, in whatever case, leaves one entry for it, and one unwatching
/// clears it: a watcher that had no other path is idle after it and has none.
pub proof fn watch_twice_then_unwatch(
    m: Model,
    path: Seq<char>,
    again: Seq<char>,
    other: Seq<char>,
    runloop: usize,
)
    requires
        m.wf(),
        !m.busy(),
        same_path(path, again),
        same_path(path, other),
    ensures
        ({
            let (adding, start) = m.watch(path);
            let (once, _r) = adding.settle(start, runloop);
            let (adding_again, restart) = once.watch(again);
            let (twice, watched) = adding_again.settle(restart, runloop);
            let (removing, stop) = twice.unwatch(other);
            let (last, unwatched) = removing.settle(stop, runloop);
            &&& watched == Ok::<(), Error>(())
            &&& twice.paths == once.paths
            &&& twice.paths == added(m.paths, path)
            &&& twice.running()
            &&& unwatched == Ok::<(), Error>(())
            &&& last.paths == removed(m.paths, path)
            &&& m.paths.len() == 0 ==> twice.paths.len() == 1 && last.paths.len() == 0
                && last.session == Session::Idle
        }),
{
    added_twice(m.paths, path, again);
    removed_after_added(m.paths, path, other);
}

/// The watcher waits for a report exactly when it has asked the caller for something, and it
/// asks in step with the session: to stop only the loop that runs, to start only where none
/// runs, and for a subscription over the paths that it holds.
pub proof fn asks_in_step(m: Model, call: Call)
    requires
        !m.busy(),
    ensures
        ({
            let (next, action) = on_call(m, call);
            &&& next.busy() <==> !(action is Done)
            &&& action matches ActionView::Stop { runloop } ==> m.session == Session::Running {
                runloop,
            } && next.session is Stopping
            &&& action matches ActionView::Start(request) ==> m.session is Idle && next.session
                is Starting && request == request_for(next.paths)
                && next.paths.len() > 0
        }),
{
}

/// After a report the same holds: a confirmed stop leads to a start or to rest, never to a
/// second stop, and an unconfirmed one ends in [`Error::LoopNotFinished`] with the watcher idle.
pub proof fn answers_in_step(m: Model, confirmed: bool, runloop: usize)
    requires
        m.busy(),
    ensures
        m.session is Starting ==> m.started(runloop) == (
            m.at(Session::Running { runloop }),
            ActionView::Done(Ok(())),
        ) && m.stopped(confirmed) == (m, ActionView::Done(Err(Error::OutOfTurn))),
        m.session is Stopping ==> ({
            let (next, action) = m.stopped(confirmed);
            &&& m.started(runloop) == (m, ActionView::Done(Err(Error::OutOfTurn)))
            &&& !(action is Stop)
            &&& next.paths == m.paths
            &&& next.busy() <==> action is Start
            &&& action matches ActionView::Start(request) ==> confirmed && request
                == request_for(m.paths) && m.paths.len() > 0
            &&& !confirmed ==> next.session is Idle && action == ActionView::Done(
                Err(Error::LoopNotFinished),
            )
        }),
{
}

/// While the watcher waits for a report, every call is out of turn and changes nothing.
pub proof fn out_of_turn_changes_nothing(m: Model, call: Call)
    requires
        m.busy(),
    ensures
        on_call(m, call) == (m, ActionView::Done(Err(Error::OutOfTurn))),
{
}

/// Every operation ends: with a caller that does what it is asked and succeeds, at most a stop
/// and a start are asked for, and the watcher waits for nothing afterwards. The only error that
/// can come out is [`Error::PathNotFound`], where no path is left, and never of an unwatch.
/// After a success a session runs exactly if there is a path, except after a stop, when none
/// runs.
pub proof fn operations_end(m: Model, call: Call, runloop: usize)
    requires
        !m.busy(),
    ensures
        ({
            let (next, action) = on_call(m, call);
            let (last, result) = next.settle(action, runloop);
            &&& !last.busy()
            &&& last.paths == next.paths
            &&& result is Err ==> result == Err::<(), Error>(Error::PathNotFound)
                && last.paths.len() == 0 && !(call is Unwatch)
            &&& result is Ok && !(call is Stop) ==> (last.running() <==> last.paths.len() > 0)
            &&& call is Stop ==> result is Ok && !last.running()
        }),
{
}

/// No call and no report breaks the rule that no two paths differ only in case.
pub proof fn paths_stay_distinct(m: Model, call: Call, confirmed: bool, runloop: usize)
    requires
        m.wf(),
    ensures
        on_call(m, call).0.wf(),
        m.started(runloop).0.wf(),
        m.stopped(confirmed).0.wf(),
{
    match call {
        Call::Watch(path) => {
            same_path_is_equivalence(path, path, path);
            added_distinct(m.paths, path, path);
        },
        Call::Unwatch(path) => {
            removed_distinct(m.paths, path);
        },
        _ => {},
    }
}

} // verus!
