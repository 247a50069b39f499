use worker_pool::outcome::Failure;
use worker_pool::pool::{first_panicked, join_all, WorkerOutcome};

#[test]
fn join_all_completed_is_ok() {
    let outcomes = vec![WorkerOutcome::Completed; 4];
    assert_eq!(join_all(&outcomes), Ok(()));
}

#[test]
fn join_of_no_workers_is_ok() {
    let outcomes: Vec<WorkerOutcome> = Vec::new();
    assert_eq!(join_all(&outcomes), Ok(()));
}

#[test]
fn join_surfaces_a_panicked_worker() {
    let outcomes = vec![
        WorkerOutcome::Completed,
        WorkerOutcome::Panicked,
        WorkerOutcome::Completed,
    ];
    assert_eq!(join_all(&outcomes), Err(Failure::WorkerPanicked));
}

#[test]
fn first_panicked_reports_earliest_failure() {
    let outcomes = vec![
        WorkerOutcome::Completed,
        WorkerOutcome::Panicked,
        WorkerOutcome::Panicked,
    ];
    assert_eq!(first_panicked(&outcomes), Some(1));
    let healthy = vec![WorkerOutcome::Completed; 3];
    assert_eq!(first_panicked(&healthy), None);
}
