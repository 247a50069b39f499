use vstd::prelude::*;

verus! {

/// The ownership side of a shared cell: a count of live handles to one
/// jointly owned value.
///
/// The launcher creates the value with one handle, clones a handle for
/// each worker at spawn time, and every owner drops its handle when it
/// is done. The value is released exactly when the last handle is
/// dropped — never earlier, never twice.
pub struct OwnerCount {
    /// How many handles to the value are alive.
    pub owners: usize,
    /// Whether the underlying value has been released.
    pub freed: bool,
}

impl OwnerCount {
    /// Release happens exactly at the moment the owner count reaches
    /// zero.
    pub open spec fn wf(&self) -> bool {
        self.freed <==> self.owners == 0
    }

    /// Creating the value hands its creator the first handle.
    pub fn new() -> (c: OwnerCount)
        ensures
            c.wf(),
            c.owners == 1,
            !c.freed,
    {
        OwnerCount { owners: 1, freed: false }
    }

    /// Clones a handle for one more owner. Only a live handle can be
    /// cloned, so the value is certainly not yet released.
    pub fn clone_handle(&mut self)
        requires
            old(self).wf(),
            old(self).owners > 0,
            old(self).owners < usize::MAX,
        ensures
            final(self).wf(),
            final(self).owners == old(self).owners + 1,
            !final(self).freed,
    {
        self.owners = self.owners + 1;
    }

    /// Drops one handle. The value is released exactly when this was
    /// the last one.
    pub fn drop_handle(&mut self)
        requires
            old(self).wf(),
            old(self).owners > 0,
        ensures
            final(self).wf(),
            final(self).owners == old(self).owners - 1,
            final(self).freed <==> old(self).owners == 1,
    {
        self.owners = self.owners - 1;
        if self.owners == 0 {
            self.freed = true;
        }
    }

    /// How many owners the value has, as the reference-count query
    /// reports it.
    pub fn strong_count(&self) -> (n: usize)
        ensures
            n == self.owners,
    {
        self.owners
    }
}

} // verus!
