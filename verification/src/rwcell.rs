use vstd::prelude::*;

verus! {

use crate::outcome::TryAcquire;

/// A shared sequence guarded by a shared/exclusive (read/write) lock.
///
/// Any number of readers may hold the lock together; a writer holds it
/// alone. As with [`crate::counter::CounterCell`], the type is the state
/// of the serialised history of lock transitions: the protected
/// contents, how many shared holders are active, whether an exclusive
/// holder is active, and whether an exclusive holder ever terminated
/// abnormally. Writer preference between waiting readers and writers is
/// deliberately not modelled: an attempt that cannot proceed answers
/// `WouldBlock`, and which waiter wins when the lock frees up is the
/// caller's (scheduler's) choice.
pub struct RwCell {
    /// The protected contents.
    pub data: Vec<i64>,
    /// How many shared (read) holders are active.
    pub readers: usize,
    /// Whether an exclusive (write) holder is active.
    pub writer: bool,
    /// Whether an exclusive holder terminated abnormally while holding
    /// the lock. Once set it is never cleared.
    pub poisoned: bool,
}

impl RwCell {
    /// The lock discipline's one structural invariant: an exclusive
    /// holder is never active together with a shared holder.
    pub open spec fn wf(&self) -> bool {
        self.writer ==> self.readers == 0
    }

    /// A fresh cell around `data`: no holders, not poisoned.
    pub fn new(data: Vec<i64>) -> (c: RwCell)
        ensures
            c.wf(),
            c.data@ == data@,
            c.readers == 0,
            !c.writer,
            !c.poisoned,
    {
        RwCell { data, readers: 0, writer: false, poisoned: false }
    }

    /// One attempt to take the lock shared. It acquires exactly when no
    /// exclusive holder is active and the lock is not poisoned; it
    /// reports `WouldBlock` exactly while an exclusive holder is
    /// active — a blocking shared acquire waits until the exclusive
    /// holder releases. The contents are never changed by an attempt.
    pub fn try_read(&mut self) -> (r: TryAcquire)
        requires
            old(self).wf(),
            old(self).readers < usize::MAX,
        ensures
            final(self).wf(),
            final(self).data@ == old(self).data@,
            final(self).writer == old(self).writer,
            final(self).poisoned == old(self).poisoned,
            old(self).poisoned ==> r == TryAcquire::Poisoned
                && final(self).readers == old(self).readers,
            !old(self).poisoned && old(self).writer ==> r == TryAcquire::WouldBlock
                && final(self).readers == old(self).readers,
            !old(self).poisoned && !old(self).writer ==> r == TryAcquire::Acquired
                && final(self).readers == old(self).readers + 1,
    {
        if self.poisoned {
            TryAcquire::Poisoned
        } else if self.writer {
            TryAcquire::WouldBlock
        } else {
            self.readers = self.readers + 1;
            TryAcquire::Acquired
        }
    }

    /// One attempt to take the lock exclusively. It acquires exactly
    /// when the lock is completely free and not poisoned; it reports
    /// `WouldBlock` exactly while any shared holder or another
    /// exclusive holder is active — a blocking exclusive acquire waits
    /// until every shared holder has released. The contents are never
    /// changed by an attempt.
    pub fn try_write(&mut self) -> (r: TryAcquire)
        requires
            old(self).wf(),
        ensures
            final(self).wf(),
            final(self).data@ == old(self).data@,
            final(self).readers == old(self).readers,
            final(self).poisoned == old(self).poisoned,
            old(self).poisoned ==> r == TryAcquire::Poisoned
                && final(self).writer == old(self).writer,
            !old(self).poisoned && (old(self).writer || old(self).readers > 0)
                ==> r == TryAcquire::WouldBlock && final(self).writer == old(self).writer,
            !old(self).poisoned && !old(self).writer && old(self).readers == 0
                ==> r == TryAcquire::Acquired && final(self).writer,
    {
        if self.poisoned {
            TryAcquire::Poisoned
        } else if self.writer || self.readers > 0 {
            TryAcquire::WouldBlock
        } else {
            self.writer = true;
            TryAcquire::Acquired
        }
    }

    /// Releases one shared hold.
    pub fn release_read(&mut self)
        requires
            old(self).wf(),
            old(self).readers > 0,
        ensures
            final(self).wf(),
            final(self).data@ == old(self).data@,
            final(self).readers == old(self).readers - 1,
            final(self).writer == old(self).writer,
            final(self).poisoned == old(self).poisoned,
    {
        self.readers = self.readers - 1;
    }

    /// Releases the exclusive hold after a normal episode.
    pub fn release_write(&mut self)
        requires
            old(self).wf(),
            old(self).writer,
        ensures
            final(self).wf(),
            final(self).data@ == old(self).data@,
            final(self).readers == old(self).readers,
            !final(self).writer,
            final(self).poisoned == old(self).poisoned,
    {
        self.writer = false;
    }

    /// Records that the exclusive holder terminated abnormally while
    /// holding the lock: the lock is released but left poisoned.
    pub fn poison_write(&mut self)
        requires
            old(self).wf(),
            old(self).writer,
        ensures
            final(self).wf(),
            final(self).data@ == old(self).data@,
            final(self).readers == old(self).readers,
            !final(self).writer,
            final(self).poisoned,
    {
        self.writer = false;
        self.poisoned = true;
    }

    /// The number of elements a current holder sees.
    pub fn len(&self) -> (n: usize)
        requires
            self.readers > 0 || self.writer,
        ensures
            n == self.data@.len(),
    {
        self.data.len()
    }

    /// Reads one element. Only a current holder, shared or exclusive,
    /// may look at the protected contents.
    pub fn read_at(&self, i: usize) -> (r: i64)
        requires
            self.readers > 0 || self.writer,
            i < self.data@.len(),
        ensures
            r == self.data@[i as int],
    {
        self.data[i]
    }

    /// Copies out the whole contents a current holder sees. The copy is
    /// exactly the protected sequence: because shared and exclusive
    /// holds exclude each other, it can never be a half-written value.
    pub fn read_snapshot(&self) -> (r: Vec<i64>)
        requires
            self.readers > 0 || self.writer,
        ensures
            r@ == self.data@,
    {
        let mut r: Vec<i64> = Vec::new();
        let mut i: usize = 0;
        while i < self.data.len()
            invariant
                i <= self.data@.len(),
                r@ == self.data@.take(i as int),
            decreases self.data@.len() - i,
        {
            r.push(self.data[i]);
            proof {
                assert(r@ =~= self.data@.take(i + 1));
            }
            i = i + 1;
        }
        proof {
            assert(r@ =~= self.data@);
        }
        r
    }

    /// Appends an element, on behalf of the current exclusive holder.
    pub fn push(&mut self, v: i64)
        requires
            old(self).wf(),
            old(self).writer,
        ensures
            final(self).wf(),
            final(self).data@ == old(self).data@.push(v),
            final(self).readers == old(self).readers,
            final(self).writer,
            final(self).poisoned == old(self).poisoned,
    {
        self.data.push(v);
    }

    /// Overwrites one element, on behalf of the current exclusive
    /// holder.
    pub fn write_at(&mut self, i: usize, v: i64)
        requires
            old(self).wf(),
            old(self).writer,
            i < old(self).data@.len(),
        ensures
            final(self).wf(),
            final(self).data@ == old(self).data@.update(i as int, v),
            final(self).readers == old(self).readers,
            final(self).writer,
            final(self).poisoned == old(self).poisoned,
    {
        self.data.set(i, v);
    }
}

/// Law: shared and exclusive holds are mutually exclusive in time — in
/// no reachable state is an exclusive holder active together with a
/// shared holder. Since the contents can only change on behalf of an
/// active exclusive holder, a reader's view of the cell is always a
/// complete value: the contents before or after a given write, never an
/// intermediate state.
pub proof fn lemma_no_concurrent_read_write(c: &RwCell)
    requires
        c.wf(),
    ensures
        !(c.writer && c.readers > 0),
{
}

} // verus!
