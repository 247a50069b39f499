use vstd::prelude::*;

verus! {

use crate::outcome::Failure;

/// How one worker's execution ended, as its join reports it.
#[derive(Clone, Copy, Debug, PartialEq, Eq, Structural)]
pub enum WorkerOutcome {
    /// The worker ran to completion.
    Completed,
    /// The worker terminated abnormally.
    Panicked,
}

/// Finds the first worker, in launch order, whose join reported an
/// abnormal termination: `Some(i)` exactly when worker `i` panicked and
/// every worker before it completed, `None` exactly when all completed.
pub fn first_panicked(outcomes: &Vec<WorkerOutcome>) -> (r: Option<usize>)
    ensures
        r is None <==> (forall|i: int|
            0 <= i < outcomes@.len() ==> outcomes@[i] == WorkerOutcome::Completed),
        r matches Some(j) ==> j < outcomes@.len() && outcomes@[j as int] == WorkerOutcome::Panicked
            && (forall|i: int| 0 <= i < j ==> outcomes@[i] == WorkerOutcome::Completed),
{
    let mut i: usize = 0;
    while i < outcomes.len()
        invariant
            i <= outcomes@.len(),
            forall|k: int| 0 <= k < i ==> outcomes@[k] == WorkerOutcome::Completed,
        decreases outcomes@.len() - i,
    {
        match outcomes[i] {
            WorkerOutcome::Panicked => {
                return Some(i);
            },
            WorkerOutcome::Completed => {},
        }
        i = i + 1;
    }
    None
}

/// The verdict of waiting for a whole pool: every worker has been
/// joined, in no guaranteed order, and the outcomes are in. The pool
/// fails exactly when some worker terminated abnormally; the policy is
/// fail-fast, so the one surfaced failure is the first panicking worker
/// in launch order and the rest are ignored.
pub fn join_all(outcomes: &Vec<WorkerOutcome>) -> (r: Result<(), Failure>)
    ensures
        r == Ok::<(), Failure>(()) <==> (forall|i: int|
            0 <= i < outcomes@.len() ==> outcomes@[i] == WorkerOutcome::Completed),
        r is Err <==> (exists|i: int|
            0 <= i < outcomes@.len() && outcomes@[i] == WorkerOutcome::Panicked),
        r is Err ==> r == Err::<(), Failure>(Failure::WorkerPanicked),
{
    match first_panicked(outcomes) {
        None => Ok(()),
        Some(j) => {
            proof {
                assert(outcomes@[j as int] == WorkerOutcome::Panicked);
            }
            Err(Failure::WorkerPanicked)
        },
    }
}

} // verus!
