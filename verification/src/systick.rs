//! The tick counter and the periodic timer interrupt.
//!
//! The kernel keeps one process-wide count of timer ticks. It increments
//! exactly once per timer interrupt, wraps on overflow, and is read by
//! tasks and by the scheduler to implement timed blocking. Because both
//! task code and interrupt handlers touch it, every access goes through the
//! mutex in front of it.

use crate::exceptions::Cpu;
use crate::exceptions::set_pendsv;
use crate::mutex::Mutex;
use vstd::prelude::*;

verus! {

/// A count one step further, wrapping at the 32-bit boundary.
pub open spec fn wrapping_incr(c: u32) -> u32 {
    if c == u32::MAX {
        0
    } else {
        (c + 1) as u32
    }
}

/// The tick count.
pub struct Count(pub u32);

impl Count {
    pub fn new(value: u32) -> (r: Count)
        ensures
            r.0 == value,
    {
        Count(value)
    }

    /// One more tick; wraps on overflow.
    pub fn incr(&mut self)
        ensures
            final(self).0 == wrapping_incr(old(self).0),
    {
        self.0 = self.0.wrapping_add(1);
    }
}

/// Advances the tick counter under its mutex.
pub fn count_incr(count: &mut Mutex<Count>)
    requires
        !old(count).locked(),
    ensures
        !final(count).locked(),
        final(count).value().0 == wrapping_incr(old(count).value().0),
{
    let guard = count.lock();
    let mut c = Count::new(count.get(&guard).0);
    c.incr();
    count.set(&guard, c);
    count.unlock(guard);
}

/// Reads the tick counter under its mutex, so the value cannot tear.
pub fn count_get(count: &mut Mutex<Count>) -> (r: u32)
    requires
        !old(count).locked(),
    ensures
        !final(count).locked(),
        final(count).value() == old(count).value(),
        r == old(count).value().0,
{
    let guard = count.lock();
    let r = count.get(&guard).0;
    count.unlock(guard);
    r
}

/// The periodic timer interrupt: advances the tick counter and requests
/// the deferred service exception, so that a context switch happens once
/// all interrupt work has finished. Task state is never touched here; this
/// is what gives the scheduler a preemption point even for tasks that
/// never yield on their own.
pub fn systick_handler(cpu: &mut Cpu, count: &mut Mutex<Count>)
    requires
        !old(count).locked(),
    ensures
        !final(count).locked(),
        final(count).value().0 == wrapping_incr(old(count).value().0),
        final(cpu).pendsv_pending,
        final(cpu).mode == old(cpu).mode,
        final(cpu).control == old(cpu).control,
{
    count_incr(count);
    set_pendsv(cpu);
}

} // verus!
