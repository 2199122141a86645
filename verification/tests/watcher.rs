use fsevent_watcher::event::Error;
use fsevent_watcher::watcher::{
    Action, FsEventWatcher, Resume, Session, StreamRequest, CREATE_FLAGS, FILE_EVENTS,
    LATENCY_MILLIS, NO_DEFER, SINCE_NOW,
};

fn request(paths: &[&str]) -> StreamRequest {
    StreamRequest {
        paths: paths.iter().map(|p| p.to_string()).collect(),
        since_when: 0xffff_ffff_ffff_ffff,
        latency_millis: 0,
        flags: 0x12,
    }
}

/// Does what each action asks for, every time with success, and gives the result of the
/// operation.
fn settle(watcher: &mut FsEventWatcher, first: Action, runloop: usize) -> Result<(), Error> {
    let mut action = first;
    loop {
        action = match action {
            Action::Done(result) => return result,
            Action::Stop { .. } => watcher.stopped(true),
            Action::Start(_) => watcher.started(runloop),
        };
    }
}

fn paths_of(watcher: &FsEventWatcher) -> Vec<String> {
    watcher.paths().to_vec()
}

#[test]
fn constants_of_a_subscription() {
    assert_eq!(SINCE_NOW, u64::MAX);
    assert_eq!(NO_DEFER, 0x2);
    assert_eq!(FILE_EVENTS, 0x10);
    assert_eq!(CREATE_FLAGS, 0x12);
    assert_eq!(LATENCY_MILLIS, 0);
}

#[test]
fn new_watcher_is_idle_and_empty() {
    let watcher = FsEventWatcher::new();
    assert!(!watcher.is_running());
    assert!(!watcher.is_busy());
    assert_eq!(watcher.session(), Session::Idle);
    assert!(watcher.paths().is_empty());
}

#[test]
fn run_without_a_path_fails_and_stays_idle() {
    let mut watcher = FsEventWatcher::new();
    assert_eq!(watcher.run(), Action::Done(Err(Error::PathNotFound)));
    assert!(!watcher.is_running());
    assert_eq!(watcher.session(), Session::Idle);
}

#[test]
fn run_with_a_path_starts_a_session() {
    let mut watcher = FsEventWatcher::new();
    watcher.add_path("/tmp/a");
    watcher.add_path("/tmp/b");
    assert!(!watcher.is_running());
    let action = watcher.run();
    assert_eq!(action, Action::Start(request(&["/tmp/a", "/tmp/b"])));
    assert_eq!(watcher.session(), Session::Starting);
    assert!(watcher.is_busy());
    assert!(!watcher.is_running());
    assert_eq!(watcher.started(42), Action::Done(Ok(())));
    assert!(watcher.is_running());
    assert!(!watcher.is_busy());
    assert_eq!(watcher.session(), Session::Running { runloop: 42 });
}

#[test]
fn run_on_a_running_watcher_starts_no_second_session() {
    let mut watcher = FsEventWatcher::new();
    let action = watcher.watch("/tmp");
    assert_eq!(settle(&mut watcher, action, 5), Ok(()));
    assert_eq!(watcher.run(), Action::Done(Ok(())));
    assert_eq!(watcher.session(), Session::Running { runloop: 5 });
    watcher.remove_path("/tmp");
    assert_eq!(watcher.run(), Action::Done(Err(Error::PathNotFound)));
    assert_eq!(watcher.session(), Session::Running { runloop: 5 });
}

#[test]
fn stop_on_a_new_watcher_does_nothing() {
    let mut watcher = FsEventWatcher::new();
    assert_eq!(watcher.stop(), Action::Done(Ok(())));
    assert_eq!(watcher.stop(), Action::Done(Ok(())));
    assert_eq!(watcher.session(), Session::Idle);
    assert!(!watcher.is_running());
}

#[test]
fn stop_twice_in_a_row() {
    let mut watcher = FsEventWatcher::new();
    let action = watcher.watch("/tmp");
    assert_eq!(settle(&mut watcher, action, 9), Ok(()));
    assert_eq!(watcher.stop(), Action::Stop { runloop: 9 });
    assert_eq!(watcher.session(), Session::Stopping { then: Resume::Rest });
    assert!(!watcher.is_running());
    assert!(watcher.is_busy());
    assert_eq!(watcher.stopped(true), Action::Done(Ok(())));
    assert_eq!(watcher.session(), Session::Idle);
    assert_eq!(watcher.stop(), Action::Done(Ok(())));
    assert_eq!(watcher.session(), Session::Idle);
    assert_eq!(paths_of(&watcher), vec!["/tmp".to_string()]);
}

#[test]
fn stop_that_is_not_confirmed_is_an_error() {
    let mut watcher = FsEventWatcher::new();
    let action = watcher.watch("/tmp");
    assert_eq!(settle(&mut watcher, action, 9), Ok(()));
    assert_eq!(watcher.stop(), Action::Stop { runloop: 9 });
    assert_eq!(watcher.stopped(false), Action::Done(Err(Error::LoopNotFinished)));
    assert_eq!(watcher.session(), Session::Idle);
    assert!(!watcher.is_running());
}

#[test]
fn unconfirmed_stop_ends_a_restart() {
    let mut watcher = FsEventWatcher::new();
    let action = watcher.watch("/tmp/a");
    assert_eq!(settle(&mut watcher, action, 9), Ok(()));
    assert_eq!(watcher.watch("/tmp/b"), Action::Stop { runloop: 9 });
    assert_eq!(watcher.stopped(false), Action::Done(Err(Error::LoopNotFinished)));
    assert_eq!(watcher.session(), Session::Idle);
    assert_eq!(paths_of(&watcher), vec!["/tmp/a".to_string(), "/tmp/b".to_string()]);
}

#[test]
fn watch_on_an_idle_watcher() {
    let mut watcher = FsEventWatcher::new();
    assert_eq!(watcher.watch("/tmp/a"), Action::Start(request(&["/tmp/a"])));
    assert_eq!(watcher.session(), Session::Starting);
    assert_eq!(watcher.started(1), Action::Done(Ok(())));
    assert!(watcher.is_running());
}

#[test]
fn watch_on_a_running_watcher_stops_first() {
    let mut watcher = FsEventWatcher::new();
    let action = watcher.watch("/tmp/a");
    assert_eq!(settle(&mut watcher, action, 1), Ok(()));
    assert_eq!(watcher.watch("/tmp/b"), Action::Stop { runloop: 1 });
    assert_eq!(watcher.session(), Session::Stopping { then: Resume::Start });
    assert_eq!(watcher.stopped(true), Action::Start(request(&["/tmp/a", "/tmp/b"])));
    assert_eq!(watcher.session(), Session::Starting);
    assert_eq!(watcher.started(2), Action::Done(Ok(())));
    assert_eq!(watcher.session(), Session::Running { runloop: 2 });
}

#[test]
fn watch_then_unwatch_leaves_the_watcher_idle() {
    let mut watcher = FsEventWatcher::new();
    let action = watcher.watch("/tmp/p");
    assert_eq!(settle(&mut watcher, action, 3), Ok(()));
    assert!(watcher.is_running());
    let action = watcher.unwatch("/tmp/p");
    assert_eq!(action, Action::Stop { runloop: 3 });
    assert_eq!(watcher.session(), Session::Stopping { then: Resume::StartIfAny });
    assert_eq!(watcher.stopped(true), Action::Done(Ok(())));
    assert!(!watcher.is_running());
    assert_eq!(watcher.session(), Session::Idle);
    assert!(watcher.paths().is_empty());
}

#[test]
fn same_path_in_other_case_is_one_watch() {
    let mut watcher = FsEventWatcher::new();
    let action = watcher.watch("/tmp/X");
    assert_eq!(settle(&mut watcher, action, 1), Ok(()));
    let action = watcher.watch("/TMP/x");
    assert_eq!(action, Action::Stop { runloop: 1 });
    assert_eq!(watcher.stopped(true), Action::Start(request(&["/tmp/X"])));
    assert_eq!(watcher.started(2), Action::Done(Ok(())));
    assert_eq!(watcher.paths().len(), 1);
    let action = watcher.unwatch("/tmp/x");
    assert_eq!(settle(&mut watcher, action, 3), Ok(()));
    assert!(!watcher.is_running());
    assert!(watcher.paths().is_empty());
}

#[test]
fn unwatch_of_one_of_two_paths_restarts() {
    let mut watcher = FsEventWatcher::new();
    let action = watcher.watch("/tmp/a");
    assert_eq!(settle(&mut watcher, action, 1), Ok(()));
    let action = watcher.watch("/tmp/b");
    assert_eq!(settle(&mut watcher, action, 2), Ok(()));
    assert_eq!(watcher.unwatch("/TMP/A"), Action::Stop { runloop: 2 });
    assert_eq!(watcher.stopped(true), Action::Start(request(&["/tmp/b"])));
    assert_eq!(watcher.started(3), Action::Done(Ok(())));
    assert_eq!(watcher.session(), Session::Running { runloop: 3 });
}

#[test]
fn unwatch_on_an_idle_watcher() {
    let mut watcher = FsEventWatcher::new();
    assert_eq!(watcher.unwatch("/tmp/a"), Action::Done(Ok(())));
    assert_eq!(watcher.session(), Session::Idle);
    watcher.add_path("/tmp/a");
    watcher.add_path("/tmp/b");
    assert_eq!(watcher.unwatch("/tmp/a"), Action::Start(request(&["/tmp/b"])));
    assert_eq!(watcher.session(), Session::Starting);
}

#[test]
fn unwatch_of_an_unknown_path_restarts_over_the_same_paths() {
    let mut watcher = FsEventWatcher::new();
    let action = watcher.watch("/tmp/a");
    assert_eq!(settle(&mut watcher, action, 1), Ok(()));
    assert_eq!(watcher.unwatch("/tmp/zzz"), Action::Stop { runloop: 1 });
    assert_eq!(watcher.stopped(true), Action::Start(request(&["/tmp/a"])));
}

#[test]
fn restart_without_a_path_fails_after_watch() {
    let mut watcher = FsEventWatcher::new();
    let action = watcher.watch("/tmp/a");
    assert_eq!(settle(&mut watcher, action, 1), Ok(()));
    assert_eq!(watcher.watch("/tmp/A"), Action::Stop { runloop: 1 });
    watcher.remove_path("/tmp/a");
    assert_eq!(watcher.stopped(true), Action::Done(Err(Error::PathNotFound)));
    assert_eq!(watcher.session(), Session::Idle);
}

#[test]
fn add_and_remove_leave_the_session_alone() {
    let mut watcher = FsEventWatcher::new();
    watcher.add_path("/tmp/a");
    assert_eq!(watcher.session(), Session::Idle);
    let action = watcher.run();
    assert_eq!(settle(&mut watcher, action, 4), Ok(()));
    watcher.add_path("/tmp/b");
    watcher.remove_path("/tmp/a");
    assert_eq!(watcher.session(), Session::Running { runloop: 4 });
    assert_eq!(paths_of(&watcher), vec!["/tmp/b".to_string()]);
}

#[test]
fn calls_out_of_turn_change_nothing() {
    let mut watcher = FsEventWatcher::new();
    assert_eq!(watcher.started(1), Action::Done(Err(Error::OutOfTurn)));
    assert_eq!(watcher.stopped(true), Action::Done(Err(Error::OutOfTurn)));
    assert_eq!(watcher.session(), Session::Idle);

    assert_eq!(watcher.watch("/tmp/a"), Action::Start(request(&["/tmp/a"])));
    assert_eq!(watcher.watch("/tmp/b"), Action::Done(Err(Error::OutOfTurn)));
    assert_eq!(watcher.unwatch("/tmp/a"), Action::Done(Err(Error::OutOfTurn)));
    assert_eq!(watcher.run(), Action::Done(Err(Error::OutOfTurn)));
    assert_eq!(watcher.stop(), Action::Done(Err(Error::OutOfTurn)));
    assert_eq!(watcher.stopped(true), Action::Done(Err(Error::OutOfTurn)));
    assert_eq!(watcher.session(), Session::Starting);
    assert_eq!(paths_of(&watcher), vec!["/tmp/a".to_string()]);

    assert_eq!(watcher.started(1), Action::Done(Ok(())));
    assert_eq!(watcher.started(2), Action::Done(Err(Error::OutOfTurn)));
    assert_eq!(watcher.stopped(true), Action::Done(Err(Error::OutOfTurn)));
    assert_eq!(watcher.session(), Session::Running { runloop: 1 });

    assert_eq!(watcher.stop(), Action::Stop { runloop: 1 });
    assert_eq!(watcher.stop(), Action::Done(Err(Error::OutOfTurn)));
    assert_eq!(watcher.run(), Action::Done(Err(Error::OutOfTurn)));
    assert_eq!(watcher.watch("/tmp/b"), Action::Done(Err(Error::OutOfTurn)));
    assert_eq!(watcher.unwatch("/tmp/a"), Action::Done(Err(Error::OutOfTurn)));
    assert_eq!(watcher.started(3), Action::Done(Err(Error::OutOfTurn)));
    assert_eq!(watcher.session(), Session::Stopping { then: Resume::Rest });
    assert_eq!(paths_of(&watcher), vec!["/tmp/a".to_string()]);
}

#[test]
fn many_sessions_one_after_another() {
    let mut watcher = FsEventWatcher::new();
    for round in 0..5usize {
        let action = watcher.watch("/tmp/a");
        assert_eq!(settle(&mut watcher, action, 100 + round), Ok(()));
        assert_eq!(watcher.session(), Session::Running { runloop: 100 + round });
        let action = watcher.stop();
        assert_eq!(action, Action::Stop { runloop: 100 + round });
        assert_eq!(settle(&mut watcher, action, 0), Ok(()));
        assert!(!watcher.is_running());
    }
    assert_eq!(paths_of(&watcher), vec!["/tmp/a".to_string()]);
}
