//! The decisions of the pinned worker pool that runs concurrent benchmark
//! iterations.
//!
//! The pool itself (threads, locks, condition variables, panics) is driven
//! from outside the library; every choice it makes is taken here. A worker
//! waits for the benchmark thread to release a new epoch, then waits for the
//! map published for it, runs its workload once, reports completion and goes
//! back to waiting. The benchmark thread releases an epoch and waits until the
//! cumulative completion count reaches its target.

use vstd::prelude::*;

verus! {

/// What a worker is waiting for.
#[derive(Clone, Copy, PartialEq, Eq, Structural)]
pub enum WorkerPhase {
    /// A new epoch, newer than the last one processed.
    AwaitEpoch,
    /// The map published for the epoch it has observed.
    AwaitMap,
}

/// The state of one worker.
#[derive(Clone, Copy, PartialEq, Eq, Structural)]
pub struct WorkerState {
    /// The epoch this worker processed last (0 before the first one).
    pub last_epoch: usize,
    /// The epoch observed and not yet processed (meaningful in `AwaitMap`).
    pub pending_epoch: usize,
    /// What the worker waits for.
    pub phase: WorkerPhase,
}

/// What a worker has just observed.
#[derive(Clone, Copy, PartialEq, Eq, Structural)]
pub enum WorkerEvent {
    /// The current epoch and whether the pool is shutting down.
    EpochObserved { epoch: usize, shutdown: bool },
    /// Whether the worker's slot held a map (which it took) and whether the
    /// pool is shutting down.
    SlotObserved { map_taken: bool, shutdown: bool },
    /// The workload has run on the taken map.
    RunCompleted,
}

/// What a worker does next.
#[derive(Clone, Copy, PartialEq, Eq, Structural)]
pub enum WorkerAction {
    /// Spin once and observe again.
    Spin,
    /// Leave the worker loop.
    Exit,
    /// Observe the slot for the published map.
    CheckSlot,
    /// Run the workload on the taken map.
    RunWorkload,
    /// Count one completed work item and notify the benchmark thread.
    ReportDone,
}

/// What the benchmark thread does while it waits for an iteration.
#[derive(Clone, Copy, PartialEq, Eq, Structural)]
pub enum PoolAction {
    /// Block until a worker signals.
    Wait,
    /// Every work item of the iteration has completed.
    Finish,
    /// A worker panicked: re-raise its panic.
    ResumePanic,
}

impl WorkerState {
    /// A worker that has processed no epoch yet.
    pub open spec fn initial_spec() -> WorkerState {
        WorkerState { last_epoch: 0, pending_epoch: 0, phase: WorkerPhase::AwaitEpoch }
    }

    /// A worker only waits for a map for an epoch it has not processed.
    pub open spec fn well_formed(self) -> bool {
        self.phase == WorkerPhase::AwaitMap ==> self.pending_epoch != self.last_epoch
    }

    /// A worker that has processed no epoch yet.
    pub fn initial() -> (r: WorkerState)
        ensures
            r == WorkerState::initial_spec(),
            r.well_formed(),
    {
        WorkerState { last_epoch: 0, pending_epoch: 0, phase: WorkerPhase::AwaitEpoch }
    }
}

/// Whether `event` is one that a worker in state `s` can observe.
pub open spec fn event_fits(s: WorkerState, event: WorkerEvent) -> bool {
    match event {
        WorkerEvent::EpochObserved { .. } => s.phase == WorkerPhase::AwaitEpoch,
        WorkerEvent::SlotObserved { .. } => s.phase == WorkerPhase::AwaitMap,
        WorkerEvent::RunCompleted => s.phase == WorkerPhase::AwaitMap,
    }
}

/// The worker's next state and action.
///
/// A newer epoch wins over a shutdown, and so does a published map; the
/// worker exits only when it has nothing to do and the pool shuts down.
pub open spec fn worker_next(s: WorkerState, event: WorkerEvent) -> (WorkerState, WorkerAction) {
    match event {
        WorkerEvent::EpochObserved { epoch, shutdown } => {
            if epoch != s.last_epoch {
                (
                    WorkerState { pending_epoch: epoch, phase: WorkerPhase::AwaitMap, ..s },
                    WorkerAction::CheckSlot,
                )
            } else if shutdown {
                (s, WorkerAction::Exit)
            } else {
                (s, WorkerAction::Spin)
            }
        },
        WorkerEvent::SlotObserved { map_taken, shutdown } => {
            if map_taken {
                (s, WorkerAction::RunWorkload)
            } else if shutdown {
                (s, WorkerAction::Exit)
            } else {
                (s, WorkerAction::Spin)
            }
        },
        WorkerEvent::RunCompleted => (
            WorkerState { last_epoch: s.pending_epoch, phase: WorkerPhase::AwaitEpoch, ..s },
            WorkerAction::ReportDone,
        ),
    }
}

/// Takes one decision of a worker.
pub fn worker_step(s: WorkerState, event: WorkerEvent) -> (r: (WorkerState, WorkerAction))
    requires
        event_fits(s, event),
    ensures
        r == worker_next(s, event),
{
    match event {
        WorkerEvent::EpochObserved { epoch, shutdown } => {
            if epoch != s.last_epoch {
                (
                    WorkerState {
                        last_epoch: s.last_epoch,
                        pending_epoch: epoch,
                        phase: WorkerPhase::AwaitMap,
                    },
                    WorkerAction::CheckSlot,
                )
            } else if shutdown {
                (s, WorkerAction::Exit)
            } else {
                (s, WorkerAction::Spin)
            }
        },
        WorkerEvent::SlotObserved { map_taken, shutdown } => {
            if map_taken {
                (s, WorkerAction::RunWorkload)
            } else if shutdown {
                (s, WorkerAction::Exit)
            } else {
                (s, WorkerAction::Spin)
            }
        },
        WorkerEvent::RunCompleted => (
            WorkerState {
                last_epoch: s.pending_epoch,
                pending_epoch: s.pending_epoch,
                phase: WorkerPhase::AwaitEpoch,
            },
            WorkerAction::ReportDone,
        ),
    }
}

/// The benchmark thread's decision after it has released an iteration:
/// `done` work items have completed in all, `target` are expected, and
/// `panicked` tells whether a worker has panicked.
pub open spec fn pool_next(done: usize, target: usize, panicked: bool) -> PoolAction {
    if panicked {
        PoolAction::ResumePanic
    } else if done < target {
        PoolAction::Wait
    } else {
        PoolAction::Finish
    }
}

/// Takes one decision of the benchmark thread while it waits for an
/// iteration to complete.
pub fn pool_wait_step(done: usize, target: usize, panicked: bool) -> (r: PoolAction)
    ensures
        r == pool_next(done, target, panicked),
{
    if panicked {
        PoolAction::ResumePanic
    } else if done < target {
        PoolAction::Wait
    } else {
        PoolAction::Finish
    }
}

/// Every step keeps a worker well formed: it waits for a map only for an
/// epoch it has not processed yet.
pub proof fn lemma_worker_step_keeps_well_formed(s: WorkerState, event: WorkerEvent)
    requires
        s.well_formed(),
        event_fits(s, event),
    ensures
        worker_next(s, event).0.well_formed(),
{
}

/// A worker runs its workload only for an epoch newer than the one it
/// processed last, and completing the run records that epoch as processed:
/// observing the same epoch again does not run the workload a second time.
pub proof fn lemma_worker_runs_each_epoch_once(s: WorkerState, event: WorkerEvent)
    requires
        s.well_formed(),
        event_fits(s, event),
    ensures
        worker_next(s, event).1 == WorkerAction::RunWorkload ==> s.pending_epoch != s.last_epoch,
        event == WorkerEvent::RunCompleted ==> worker_next(s, event).0.last_epoch
            == s.pending_epoch,
        (event matches WorkerEvent::EpochObserved { epoch, .. } && epoch == s.last_epoch)
            ==> worker_next(s, event).0 == s && worker_next(s, event).1 != WorkerAction::CheckSlot,
{
}

/// A worker leaves its loop only when the pool shuts down and it has neither a
/// newer epoch nor a published map to act on.
pub proof fn lemma_worker_exits_only_on_shutdown(s: WorkerState, event: WorkerEvent)
    requires
        event_fits(s, event),
        worker_next(s, event).1 == WorkerAction::Exit,
    ensures
        match event {
            WorkerEvent::EpochObserved { epoch, shutdown } => shutdown && epoch == s.last_epoch,
            WorkerEvent::SlotObserved { map_taken, shutdown } => shutdown && !map_taken,
            WorkerEvent::RunCompleted => false,
        },
{
}

/// The benchmark thread finishes an iteration only when no worker has
/// panicked and the completion count has reached its target, and it
/// re-raises a worker panic whenever one was recorded.
pub proof fn lemma_pool_finishes_only_when_done(done: usize, target: usize, panicked: bool)
    ensures
        pool_next(done, target, panicked) == PoolAction::Finish <==> (!panicked && done >= target),
        pool_next(done, target, panicked) == PoolAction::ResumePanic <==> panicked,
{
}

} // verus!
