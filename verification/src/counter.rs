use vstd::prelude::*;

verus! {

use crate::outcome::{Failure, TryAcquire};

/// A shared counter guarded by an exclusive lock.
///
/// Every access, read or write, goes through the one lock, so the
/// workers' effects on the counter are serialised: the observable
/// history of the cell is some interleaving of whole acquire–touch–
/// release episodes. This type is that serialised history's state:
/// the count, whether the lock is held at this point of the history,
/// and whether some holder terminated abnormally while holding it.
pub struct CounterCell {
    /// The protected count.
    pub value: u64,
    /// Whether the exclusive lock is held at this point.
    pub held: bool,
    /// Whether a holder terminated abnormally while holding the lock.
    /// Once set it is never cleared: the cell's contents are no longer
    /// trusted, and every later acquire attempt is refused.
    pub poisoned: bool,
}

impl CounterCell {
    /// A fresh cell: counter at `init`, lock free, not poisoned.
    pub fn new(init: u64) -> (c: CounterCell)
        ensures
            c.value == init,
            !c.held,
            !c.poisoned,
    {
        CounterCell { value: init, held: false, poisoned: false }
    }

    /// One attempt to take the exclusive lock. It acquires exactly when
    /// the lock is free and not poisoned; it reports `WouldBlock`
    /// exactly while another holder is active; it fails exactly when
    /// the lock is poisoned. The count is never changed by an attempt.
    pub fn try_acquire(&mut self) -> (r: TryAcquire)
        ensures
            final(self).value == old(self).value,
            final(self).poisoned == old(self).poisoned,
            old(self).poisoned ==> r == TryAcquire::Poisoned && final(self).held == old(self).held,
            !old(self).poisoned && old(self).held ==> r == TryAcquire::WouldBlock && final(self).held,
            !old(self).poisoned && !old(self).held ==> r == TryAcquire::Acquired && final(self).held,
    {
        if self.poisoned {
            TryAcquire::Poisoned
        } else if self.held {
            TryAcquire::WouldBlock
        } else {
            self.held = true;
            TryAcquire::Acquired
        }
    }

    /// Reads the count. Only a current lock holder may look at the
    /// protected value.
    pub fn read(&self) -> (r: u64)
        requires
            self.held,
        ensures
            r == self.value,
    {
        self.value
    }

    /// Adds one to the count, on behalf of the current lock holder.
    pub fn increment(&mut self)
        requires
            old(self).held,
            old(self).value < u64::MAX,
        ensures
            final(self).value == old(self).value + 1,
            final(self).held,
            final(self).poisoned == old(self).poisoned,
    {
        self.value = self.value + 1;
    }

    /// Releases the lock after a normal episode.
    pub fn release(&mut self)
        requires
            old(self).held,
        ensures
            !final(self).held,
            final(self).value == old(self).value,
            final(self).poisoned == old(self).poisoned,
    {
        self.held = false;
    }

    /// Records that the current holder terminated abnormally while
    /// holding the lock: the lock is released but left poisoned, so
    /// that no later acquire silently succeeds over untrusted contents.
    pub fn poison(&mut self)
        requires
            old(self).held,
        ensures
            !final(self).held,
            final(self).poisoned,
            final(self).value == old(self).value,
    {
        self.held = false;
        self.poisoned = true;
    }

    /// One increment-worker's whole episode: take the lock, add one,
    /// release. The episode starts when the lock is free — a worker
    /// that arrives earlier blocks until it is — so the precondition
    /// asks for a free lock. On a poisoned lock the episode fails
    /// without touching the count.
    pub fn increment_under_lock(&mut self) -> (r: Result<(), Failure>)
        requires
            !old(self).held,
            old(self).value < u64::MAX,
        ensures
            !final(self).held,
            final(self).poisoned == old(self).poisoned,
            old(self).poisoned ==> r == Err::<(), Failure>(Failure::PoisonedLock)
                && final(self).value == old(self).value,
            !old(self).poisoned ==> r == Ok::<(), Failure>(())
                && final(self).value == old(self).value + 1,
    {
        match self.try_acquire() {
            TryAcquire::Acquired => {
                self.increment();
                self.release();
                Ok(())
            },
            _ => Err(Failure::PoisonedLock),
        }
    }

    /// Runs a pool of `n` increment-workers against this cell to
    /// completion. The exclusive lock serialises the workers, so the
    /// pool's effect is the effect of `n` whole episodes in some order:
    /// on a healthy cell every update lands and the final count is the
    /// starting count plus exactly `n` — no lost updates. On a poisoned
    /// cell the first worker's acquire fails and the count is untouched.
    pub fn run_increment_workers(&mut self, n: usize) -> (r: Result<(), Failure>)
        requires
            !old(self).held,
            old(self).value + n <= u64::MAX,
        ensures
            !final(self).held,
            final(self).poisoned == old(self).poisoned,
            !old(self).poisoned ==> r == Ok::<(), Failure>(())
                && final(self).value == old(self).value + n,
            old(self).poisoned && n > 0 ==> r == Err::<(), Failure>(Failure::PoisonedLock)
                && final(self).value == old(self).value,
            old(self).poisoned && n == 0 ==> r == Ok::<(), Failure>(())
                && final(self).value == old(self).value,
    {
        let mut i: usize = 0;
        while i < n
            invariant
                i <= n,
                !self.held,
                self.poisoned == old(self).poisoned,
                old(self).value + n <= u64::MAX,
                !self.poisoned ==> self.value == old(self).value + i,
                self.poisoned ==> self.value == old(self).value && i == 0,
            decreases n - i,
        {
            match self.increment_under_lock() {
                Ok(()) => {},
                Err(e) => {
                    return Err(e);
                },
            }
            i = i + 1;
        }
        Ok(())
    }
}

} // verus!
