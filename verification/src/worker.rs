//! The two control state machines each worker runs.
//!
//! The worker's main loop alternates between a paused idle state and active
//! solving, driven by the loop-control channel; a companion stop watcher
//! drains the hard-stop channel and cancels a possibly blocking solve call.
//! The decisions of both loops are verified functions from state and received
//! signal to next state and action; the thread that runs each loop performs
//! the action (sleeping, one solve attempt, or the one-time teardown) and
//! hands the next signal back.

use vstd::prelude::*;

use crate::types::ControlMessage;

verus! {

/// The state of a worker's main loop.
#[derive(Clone, Copy, Debug, PartialEq, Eq, Structural)]
pub enum WorkerPhase {
    /// Idle: the solve context is kept, no attempts are made.  Every worker
    /// starts here and waits for a job before solving.
    Paused,
    /// Actively making solve attempts against the current job.
    Solving,
    /// Terminal: the worker has torn down and will never solve again.
    Stopped,
}

/// What a worker's thread must do after one decision step.
#[derive(Clone, Copy, Debug, PartialEq, Eq, Structural)]
pub enum WorkerAction {
    /// Sleep one short interval, then re-check the control channel.
    Sleep,
    /// Make one solve attempt against the current job, then loop.
    Solve,
    /// One-time ordered teardown: join the stop watcher, release the solve
    /// context, unload the plugin, and exit the loop.
    Shutdown,
}

/// What the stop watcher must do after draining one signal.
#[derive(Clone, Copy, Debug, PartialEq, Eq, Structural)]
pub enum WatcherAction {
    /// Invoke the plugin's cancellation capability and exit permanently.
    CancelAndExit,
    /// Invoke the cancellation capability, to unblock an in-flight solve
    /// attempt, and keep monitoring for further signals.
    CancelAndKeepWatching,
    /// Do nothing and keep monitoring.
    Ignore,
}

/// One decision step of the worker's main loop: the phase the received
/// signal moves the worker to, and the action its thread performs there.
pub open spec fn spec_loop_step(phase: WorkerPhase, msg: Option<ControlMessage>) -> (
    WorkerPhase,
    WorkerAction,
) {
    let next = match msg {
        Some(ControlMessage::Stop) => WorkerPhase::Stopped,
        Some(ControlMessage::Pause) => WorkerPhase::Paused,
        Some(ControlMessage::Resume) => WorkerPhase::Solving,
        None => phase,
    };
    let action = match next {
        WorkerPhase::Paused => WorkerAction::Sleep,
        WorkerPhase::Solving => WorkerAction::Solve,
        WorkerPhase::Stopped => WorkerAction::Shutdown,
    };
    (next, action)
}

/// One decision step of the worker's main loop.  `msg` is the signal drained
/// from the loop-control channel between solve attempts, if any; a `Stopped`
/// worker makes no further steps.
pub fn loop_step(phase: WorkerPhase, msg: Option<ControlMessage>) -> (r: (
    WorkerPhase,
    WorkerAction,
))
    requires
        phase !is Stopped,
    ensures
        r == spec_loop_step(phase, msg),
{
    let next = match msg {
        Some(ControlMessage::Stop) => WorkerPhase::Stopped,
        Some(ControlMessage::Pause) => WorkerPhase::Paused,
        Some(ControlMessage::Resume) => WorkerPhase::Solving,
        None => phase,
    };
    let action = match next {
        WorkerPhase::Paused => WorkerAction::Sleep,
        WorkerPhase::Solving => WorkerAction::Solve,
        WorkerPhase::Stopped => WorkerAction::Shutdown,
    };
    (next, action)
}

/// One decision step of the stop watcher, for one signal drained from the
/// hard-stop channel.
pub open spec fn spec_watcher_step(msg: ControlMessage) -> WatcherAction {
    match msg {
        ControlMessage::Stop => WatcherAction::CancelAndExit,
        ControlMessage::Pause => WatcherAction::CancelAndKeepWatching,
        ControlMessage::Resume => WatcherAction::Ignore,
    }
}

/// One decision step of the stop watcher.
pub fn watcher_step(msg: ControlMessage) -> (r: WatcherAction)
    ensures
        r == spec_watcher_step(msg),
{
    match msg {
        ControlMessage::Stop => WatcherAction::CancelAndExit,
        ControlMessage::Pause => WatcherAction::CancelAndKeepWatching,
        ControlMessage::Resume => WatcherAction::Ignore,
    }
}

/// A pause followed by a resume never tears a worker down: neither step asks
/// for the teardown that releases the solve context or unloads the plugin,
/// and the worker ends up solving again.  The watcher's part of a pause
/// cancels the in-flight attempt but keeps watching, so the solve context's
/// identity is preserved across the pause boundary.
pub proof fn lemma_pause_resume_preserves_context(phase: WorkerPhase)
    requires
        phase !is Stopped,
    ensures
        ({
            let (paused, pause_action) = spec_loop_step(phase, Some(ControlMessage::Pause));
            let (resumed, resume_action) = spec_loop_step(paused, Some(ControlMessage::Resume));
            &&& pause_action !is Shutdown
            &&& resume_action !is Shutdown
            &&& paused is Paused
            &&& resumed is Solving
        }),
        spec_watcher_step(ControlMessage::Pause) !is CancelAndExit,
        spec_watcher_step(ControlMessage::Resume) !is CancelAndExit,
{
}

/// A pause acknowledgment keeps a worker from solving: the step that
/// processes a pause never begins an attempt, and an unsignalled paused
/// worker only sleeps.  A job install that broadcasts a pause first and a
/// resume only after the new fields are in place therefore never races a
/// fresh attempt against a partially updated header.
pub proof fn lemma_paused_worker_does_not_solve()
    ensures
        spec_loop_step(WorkerPhase::Paused, None).0 is Paused,
        spec_loop_step(WorkerPhase::Paused, None).1 is Sleep,
        forall|phase: WorkerPhase|
            (#[trigger] spec_loop_step(phase, Some(ControlMessage::Pause))).1 is Sleep,
{
}

/// A stop is terminal and its teardown runs exactly once: from any live
/// phase, a stop signal moves the loop to `Stopped` with the one-time
/// teardown action; no other signal ever asks for teardown; and the watcher
/// answers a stop by cancelling any in-flight solve attempt and exiting, so
/// the worker terminates within the cancellation latency of one attempt.
pub proof fn lemma_stop_terminates(phase: WorkerPhase)
    requires
        phase !is Stopped,
    ensures
        spec_loop_step(phase, Some(ControlMessage::Stop)).0 is Stopped,
        spec_loop_step(phase, Some(ControlMessage::Stop)).1 is Shutdown,
        forall|msg: Option<ControlMessage>|
            spec_loop_step(phase, msg).1 is Shutdown ==> msg == Some(ControlMessage::Stop),
        spec_watcher_step(ControlMessage::Stop) is CancelAndExit,
{
}

} // verus!
