use bench_map::worker_pool::{
    pool_wait_step, worker_step, PoolAction, WorkerAction, WorkerEvent, WorkerPhase, WorkerState,
};

#[test]
fn worker_runs_a_released_epoch_once() {
    let s = WorkerState::initial();
    assert!(s.phase == WorkerPhase::AwaitEpoch);

    // Nothing released yet: spin.
    let (s, a) = worker_step(s, WorkerEvent::EpochObserved { epoch: 0, shutdown: false });
    assert!(a == WorkerAction::Spin);

    // Epoch 1 released: look for the map.
    let (s, a) = worker_step(s, WorkerEvent::EpochObserved { epoch: 1, shutdown: false });
    assert!(a == WorkerAction::CheckSlot);
    assert!(s.phase == WorkerPhase::AwaitMap);
    assert_eq!(s.pending_epoch, 1);

    // Map not published yet: spin; then it is: run.
    let (s, a) = worker_step(s, WorkerEvent::SlotObserved { map_taken: false, shutdown: false });
    assert!(a == WorkerAction::Spin);
    let (s, a) = worker_step(s, WorkerEvent::SlotObserved { map_taken: true, shutdown: false });
    assert!(a == WorkerAction::RunWorkload);

    // Completion is reported and the epoch recorded.
    let (s, a) = worker_step(s, WorkerEvent::RunCompleted);
    assert!(a == WorkerAction::ReportDone);
    assert_eq!(s.last_epoch, 1);
    assert!(s.phase == WorkerPhase::AwaitEpoch);

    // Seeing epoch 1 again does not run it a second time.
    let (s2, a) = worker_step(s, WorkerEvent::EpochObserved { epoch: 1, shutdown: false });
    assert!(a == WorkerAction::Spin);
    assert!(s2 == s);
}

#[test]
fn worker_exits_only_on_shutdown_with_nothing_to_do() {
    let s = WorkerState::initial();
    let (_, a) = worker_step(s, WorkerEvent::EpochObserved { epoch: 0, shutdown: true });
    assert!(a == WorkerAction::Exit);

    // A newer epoch wins over a shutdown.
    let (s, a) = worker_step(s, WorkerEvent::EpochObserved { epoch: 3, shutdown: true });
    assert!(a == WorkerAction::CheckSlot);

    // So does a published map.
    let (_, a) = worker_step(s, WorkerEvent::SlotObserved { map_taken: true, shutdown: true });
    assert!(a == WorkerAction::RunWorkload);
    let (_, a) = worker_step(s, WorkerEvent::SlotObserved { map_taken: false, shutdown: true });
    assert!(a == WorkerAction::Exit);
}

#[test]
fn pool_waits_until_target_or_panic() {
    assert!(pool_wait_step(0, 3, false) == PoolAction::Wait);
    assert!(pool_wait_step(2, 3, false) == PoolAction::Wait);
    assert!(pool_wait_step(3, 3, false) == PoolAction::Finish);
    assert!(pool_wait_step(4, 3, false) == PoolAction::Finish);
    assert!(pool_wait_step(1, 3, true) == PoolAction::ResumePanic);
    assert!(pool_wait_step(3, 3, true) == PoolAction::ResumePanic);
}
