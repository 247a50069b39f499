use vstd::prelude::*;

verus! {

/// Why a lock, join or send operation failed. Each condition is
/// surfaced as a value rather than as a process abort, so the caller
/// chooses between failing fast and recovering.
#[derive(Clone, Copy, Debug, PartialEq, Eq, Structural)]
pub enum Failure {
    /// A previous holder of the exclusive lock terminated abnormally
    /// while holding it.
    PoisonedLock,
    /// A worker terminated abnormally before it could be joined.
    WorkerPanicked,
    /// A message was sent after the receiving endpoint was dropped.
    ChannelClosed,
}

/// The outcome of one non-blocking attempt to take a lock. A blocking
/// acquire is the same attempt repeated until it stops answering
/// `WouldBlock`.
#[derive(Clone, Copy, Debug, PartialEq, Eq, Structural)]
pub enum TryAcquire {
    /// The lock was free and is now held by the caller.
    Acquired,
    /// Another holder is active; a blocking acquire would wait here.
    WouldBlock,
    /// The lock is poisoned; every future attempt fails the same way.
    Poisoned,
}

} // verus!
