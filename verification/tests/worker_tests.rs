use clin::backup::{worker_step, worker_wait, BackupJob, WorkerAction, WorkerEvent, WorkerState, WorkerWait};

fn msg(a: &WorkerAction) -> Option<(&str, bool)> {
    match a {
        WorkerAction::Run(m) => Some((m.as_str(), false)),
        WorkerAction::RunThenStop(m) => Some((m.as_str(), true)),
        _ => None,
    }
}

#[test]
fn auto_jobs_coalesce_until_the_deadline() {
    let (s, a) = worker_step(WorkerState::Idle, WorkerEvent::Received(BackupJob::Auto("a".into())), 100);
    assert!(matches!(a, WorkerAction::Nothing));
    assert_eq!(worker_wait(&s, 100), WorkerWait::For(2000));
    let (s, _) = worker_step(s, WorkerEvent::Received(BackupJob::Auto("b".into())), 1500);
    // The deadline stays that of the first job.
    assert_eq!(worker_wait(&s, 1500), WorkerWait::For(600));
    assert_eq!(worker_wait(&s, 2100), WorkerWait::Expired);
    let (s, a) = worker_step(s, WorkerEvent::TimedOut, 2100);
    assert_eq!(msg(&a), Some(("b", false)));
    assert_eq!(worker_wait(&s, 2100), WorkerWait::Block);
}

#[test]
fn flush_drains_then_runs_at_once() {
    let (s, _) = worker_step(WorkerState::Idle, WorkerEvent::Received(BackupJob::Auto("a".into())), 0);
    let (s, a) = worker_step(s, WorkerEvent::Received(BackupJob::Flush("quit".into())), 10);
    assert!(matches!(a, WorkerAction::Nothing));
    assert_eq!(worker_wait(&s, 10), WorkerWait::Poll);
    let (s, a) = worker_step(s, WorkerEvent::Received(BackupJob::Auto("late".into())), 11);
    assert!(matches!(a, WorkerAction::Nothing));
    let (s, a) = worker_step(s, WorkerEvent::QueueEmpty, 12);
    assert_eq!(msg(&a), Some(("quit", false)));
    let (_, a) = worker_step(s, WorkerEvent::Disconnected, 13);
    assert!(matches!(a, WorkerAction::Stop));
}

#[test]
fn closing_the_queue_commits_the_pending_message() {
    let (s, _) = worker_step(WorkerState::Idle, WorkerEvent::Received(BackupJob::Auto("a".into())), 0);
    let (s, _) = worker_step(s, WorkerEvent::Received(BackupJob::Auto("b".into())), 1);
    let (_, a) = worker_step(s, WorkerEvent::Disconnected, 2);
    assert_eq!(msg(&a), Some(("b", true)));
    let (_, a) = worker_step(WorkerState::Idle, WorkerEvent::Disconnected, 0);
    assert!(matches!(a, WorkerAction::Stop));
}

#[test]
fn deadline_saturates_near_the_end_of_time() {
    let (s, _) = worker_step(WorkerState::Idle, WorkerEvent::Received(BackupJob::Auto("a".into())), u64::MAX - 5);
    assert_eq!(worker_wait(&s, u64::MAX - 5), WorkerWait::For(5));
}

#[test]
fn worker_shuts_down_on_drop() {
    // Two auto jobs, then every sender dropped: the coalesced message runs,
    // and the worker stops (the thread then signals that it is done).
    let (s, _) = worker_step(WorkerState::Idle, WorkerEvent::Received(BackupJob::Auto("a".into())), 0);
    let (s, _) = worker_step(s, WorkerEvent::Received(BackupJob::Auto("b".into())), 0);
    let (_, a) = worker_step(s, WorkerEvent::Disconnected, 0);
    assert_eq!(msg(&a), Some(("b", true)));
}
