//! Reader/writer lock over the same held-flag protocol as the mutex.
//!
//! The write path is the exclusive-acquire protocol of `Mutex::lock`: it can
//! only complete from the released state and sets the held-flag. The read
//! path is deliberately different: constructing a read guard neither checks
//! nor sets the held-flag, so a reader is not excluded by a concurrent
//! writer — and releasing *any* guard clears the flag. Both facts are stated
//! in the contracts below rather than smoothed over; whether readers ought
//! to be excluded is an open design question, and the contracts document the
//! behaviour as it is.

use vstd::prelude::*;

verus! {

/// Witness of a read acquisition. Dropping read access goes through
/// `RwLock::read_unlock`, which consumes the guard.
pub struct RwLockReadGuard {
    held: bool,
}

impl RwLockReadGuard {
    fn new() -> (r: RwLockReadGuard) {
        RwLockReadGuard { held: true }
    }
}

/// Witness of an exclusive (write) acquisition, minted only by
/// `RwLock::write` and consumed by `RwLock::write_unlock`.
pub struct RwLockWriteGuard {
    held: bool,
}

impl RwLockWriteGuard {
    fn new() -> (r: RwLockWriteGuard) {
        RwLockWriteGuard { held: true }
    }
}

/// A held-flag in front of a protected value, with a non-excluding read
/// path.
pub struct RwLock<T> {
    locked: bool,
    data: T,
}

/// The state change a completed exclusive acquisition performs.
pub open spec fn write_transition<T>(pre: RwLock<T>, post: RwLock<T>) -> bool {
    &&& !pre.locked()
    &&& post.locked()
    &&& post.value() == pre.value()
}

/// The state change a release performs: the held-flag is cleared whichever
/// guard is surrendered.
pub open spec fn release_transition<T>(pre: RwLock<T>, post: RwLock<T>) -> bool {
    &&& !post.locked()
    &&& post.value() == pre.value()
}

impl<T> RwLock<T> {
    /// Whether the exclusive held-flag is set.
    pub closed spec fn locked(self) -> bool {
        self.locked
    }

    /// The protected value.
    pub closed spec fn value(self) -> T {
        self.data
    }

    pub fn new(value: T) -> (r: RwLock<T>)
        ensures
            !r.locked(),
            r.value() == value,
    {
        RwLock { locked: false, data: value }
    }

    /// Whether the exclusive held-flag is currently set.
    pub fn is_locked(&self) -> (r: bool)
        ensures
            r == self.locked(),
    {
        self.locked
    }

    /// Exclusive acquisition: identical protocol to `Mutex::lock`. On the
    /// target it busy-waits while the held-flag is set; on a single
    /// instruction stream only an acquisition starting from the released
    /// state ever completes, which is the precondition here.
    pub fn write(&mut self) -> (guard: RwLockWriteGuard)
        requires
            !old(self).locked(),
        ensures
            write_transition(*old(self), *final(self)),
    {
        self.locked = true;
        RwLockWriteGuard::new()
    }

    /// Read acquisition. Note what the contract does *not* say: the
    /// held-flag is neither required clear nor set, so a reader proceeds
    /// even while a writer holds the lock.
    pub fn read(&self) -> (guard: RwLockReadGuard)
    {
        RwLockReadGuard::new()
    }

    /// Releases exclusive access, consuming the write guard.
    pub fn write_unlock(&mut self, _guard: RwLockWriteGuard)
        ensures
            release_transition(*old(self), *final(self)),
    {
        if self.locked {
            self.locked = false;
        }
    }

    /// Surrenders a read guard. The release path is shared with the write
    /// path, so this too clears the exclusive held-flag — even one set by a
    /// concurrent writer; the contract states that quirk rather than hiding
    /// it.
    pub fn read_unlock(&mut self, _guard: RwLockReadGuard)
        ensures
            release_transition(*old(self), *final(self)),
    {
        if self.locked {
            self.locked = false;
        }
    }

    /// Reads the protected value through a read guard.
    pub fn get<'a>(&'a self, _guard: &RwLockReadGuard) -> (r: &'a T)
        ensures
            *r == self.value(),
    {
        &self.data
    }

    /// Reads the protected value through the write guard.
    pub fn get_mut<'a>(&'a self, _guard: &RwLockWriteGuard) -> (r: &'a T)
        requires
            self.locked(),
        ensures
            *r == self.value(),
    {
        &self.data
    }

    /// Replaces the protected value; the caller must hold the write guard.
    pub fn set(&mut self, _guard: &RwLockWriteGuard, value: T)
        requires
            old(self).locked(),
        ensures
            final(self).locked(),
            final(self).value() == value,
    {
        self.data = value;
    }
}

/// Writers exclude writers: after a completed exclusive acquisition, no
/// second one can complete before a release.
pub proof fn lemma_write_excludes_write<T>(s0: RwLock<T>, s1: RwLock<T>, s2: RwLock<T>)
    requires
        write_transition(s0, s1),
    ensures
        !write_transition(s1, s2),
{
}

} // verus!
