use std::sync::atomic::{AtomicI32, Ordering};
use vstd::prelude::*;
use crate::lock_state::{next_state, settled_state, LockEvent, EMPTY};

verus! {

/// A non-blocking reader/writer lock whose state also records whether the
/// data it guards exists.
///
/// The state is one of: write-locked, empty, idle (data present, unused), or
/// idle plus the number of readers now inside. Every operation makes one
/// attempt: where the state does not allow it, or another party changed the
/// state first, it gives up at once and reports absence. The transitions it
/// attempts are those of `lock_state::step`.
pub struct Lock {
    refcount: AtomicI32,
}

impl Default for Lock {
    fn default() -> (r: Self)
        ensures
            true,
    {
        Lock::new()
    }
}

impl Lock {
    /// A lock in the empty state.
    pub fn new() -> Self {
        Lock { refcount: AtomicI32::new(EMPTY) }
    }

    /// The state the lock is in at this moment.
    pub fn state(&self) -> i32 {
        self.refcount.load(Ordering::Acquire)
    }

    /// Makes one attempt at the claim `e` (a create or update claim, or a
    /// reader's entry): moves the lock from the state seen to the one that
    /// `next_state` gives, unless that is none or the state changed meanwhile.
    pub(crate) fn attempt(&self, e: LockEvent) -> bool {
        let x = self.refcount.load(Ordering::Relaxed);
        match next_state(x, e) {
            Some(n) => self.refcount.compare_exchange(x, n, Ordering::Acquire, Ordering::Relaxed).is_ok(),
            None => false,
        }
    }

    /// Lets go of a write claim: idle when data was kept, empty otherwise.
    pub(crate) fn release(&self, kept: bool) {
        self.refcount.store(settled_state(kept), Ordering::Release);
    }

    /// Removes a reader that a `ReadEnter` attempt added.
    pub(crate) fn exit_read(&self) {
        self.refcount.fetch_sub(1, Ordering::Release);
    }

    /// Claims an empty lock for writing and runs `f`. The lock is left idle when
    /// `f` gives a value and empty when it gives none. Returns what `f` gave, or
    /// `None` without calling `f` when the lock was not empty.
    pub fn create<R>(&self, f: impl FnOnce() -> Option<R>) -> (r: Option<R>)
        requires
            f.requires(()),
        ensures
            r is Some ==> f.ensures((), r),
    {
        if self.attempt(LockEvent::CreateClaim) {
            let r = f();
            self.release(r.is_some());
            r
        } else {
            None
        }
    }

    /// Claims an idle lock for writing and runs `f`. The lock is left idle when
    /// `f` gives a value and empty when it gives none. Returns what `f` gave, or
    /// `None` without calling `f` when the lock was not idle.
    pub fn update<R>(&self, f: impl FnOnce() -> Option<R>) -> (r: Option<R>)
        requires
            f.requires(()),
        ensures
            r is Some ==> f.ensures((), r),
    {
        if self.attempt(LockEvent::UpdateClaim) {
            let r = f();
            self.release(r.is_some());
            r
        } else {
            None
        }
    }

    /// Joins the readers of a lock that holds data and no writer, runs `f`,
    /// and leaves again. Returns `Some` of what `f` gave, or `None` without
    /// calling `f` when no reader could enter. Entry is a single
    /// compare-and-swap: where another reader changes the count between the
    /// load and the swap, this call loses the race and reports `None`; the
    /// caller may retry.
    pub fn read<R>(&self, f: impl FnOnce() -> R) -> (r: Option<R>)
        requires
            f.requires(()),
        ensures
            r matches Some(v) ==> f.ensures((), v),
    {
        if !self.attempt(LockEvent::ReadEnter) {
            return None;
        }
        let r = f();
        self.exit_read();
        Some(r)
    }
}

} // verus!
