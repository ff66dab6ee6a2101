//! The on-board indicator output.
//!
//! The physical pin driver is a peripheral of the surrounding platform; the
//! kernel tracks the level it drives. Because both tasks and interrupt
//! handlers may blink the indicator, the state sits behind a mutex:
//! `None` until the pin has been handed over at boot, then `Some(level)`.

use crate::mutex::Mutex;
use vstd::prelude::*;

verus! {

/// Takes ownership of the indicator at its current level. Must happen
/// before anything drives or toggles it.
pub fn init(led: &mut Mutex<Option<bool>>, level: bool)
    requires
        !old(led).locked(),
    ensures
        !final(led).locked(),
        final(led).value() == Some(level),
{
    let guard = led.lock();
    led.set(&guard, Some(level));
    led.unlock(guard);
}

/// Drives the indicator to the given level. The indicator must have been
/// handed over first.
pub fn set_output(led: &mut Mutex<Option<bool>>, pin: bool)
    requires
        !old(led).locked(),
        old(led).value() is Some,
    ensures
        !final(led).locked(),
        final(led).value() == Some(pin),
{
    let guard = led.lock();
    led.set(&guard, Some(pin));
    led.unlock(guard);
}

/// Inverts the indicator's level. The indicator must have been handed over
/// first.
pub fn toggle(led: &mut Mutex<Option<bool>>)
    requires
        !old(led).locked(),
        old(led).value() is Some,
    ensures
        !final(led).locked(),
        old(led).value() matches Some(level) ==> final(led).value() == Some(!level),
{
    let guard = led.lock();
    let level: bool = (*led.get(&guard)).unwrap();
    led.set(&guard, Some(!level));
    led.unlock(guard);
}

} // verus!
