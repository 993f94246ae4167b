use cuckoo_miner::types::ControlMessage;
use cuckoo_miner::worker::{loop_step, watcher_step, WatcherAction, WorkerAction, WorkerPhase};

#[test]
fn worker_starts_paused_and_resumes_on_signal() {
    let (phase, action) = loop_step(WorkerPhase::Paused, None);
    assert_eq!(phase, WorkerPhase::Paused);
    assert_eq!(action, WorkerAction::Sleep);
    let (phase, action) = loop_step(phase, Some(ControlMessage::Resume));
    assert_eq!(phase, WorkerPhase::Solving);
    assert_eq!(action, WorkerAction::Solve);
}

#[test]
fn solving_worker_keeps_solving_without_signal() {
    let (phase, action) = loop_step(WorkerPhase::Solving, None);
    assert_eq!(phase, WorkerPhase::Solving);
    assert_eq!(action, WorkerAction::Solve);
}

#[test]
fn pause_then_resume_never_tears_down() {
    for start in [WorkerPhase::Paused, WorkerPhase::Solving] {
        let (paused, pause_action) = loop_step(start, Some(ControlMessage::Pause));
        assert_eq!(paused, WorkerPhase::Paused);
        assert_ne!(pause_action, WorkerAction::Shutdown);
        let (resumed, resume_action) = loop_step(paused, Some(ControlMessage::Resume));
        assert_eq!(resumed, WorkerPhase::Solving);
        assert_ne!(resume_action, WorkerAction::Shutdown);
    }
}

#[test]
fn stop_is_terminal_from_any_phase() {
    for start in [WorkerPhase::Paused, WorkerPhase::Solving] {
        let (phase, action) = loop_step(start, Some(ControlMessage::Stop));
        assert_eq!(phase, WorkerPhase::Stopped);
        assert_eq!(action, WorkerAction::Shutdown);
    }
}

#[test]
fn only_stop_requests_teardown() {
    for start in [WorkerPhase::Paused, WorkerPhase::Solving] {
        for msg in [None, Some(ControlMessage::Pause), Some(ControlMessage::Resume)] {
            let (_, action) = loop_step(start, msg);
            assert_ne!(action, WorkerAction::Shutdown);
        }
    }
}

#[test]
fn watcher_cancels_and_exits_only_on_stop() {
    assert_eq!(watcher_step(ControlMessage::Stop), WatcherAction::CancelAndExit);
    assert_eq!(
        watcher_step(ControlMessage::Pause),
        WatcherAction::CancelAndKeepWatching
    );
    assert_eq!(watcher_step(ControlMessage::Resume), WatcherAction::Ignore);
}
