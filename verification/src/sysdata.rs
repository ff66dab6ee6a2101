//! System-wide kernel data. A reserved hook: the tick counter, the
//! scheduler and the indicator each live behind their own lock, and nothing
//! else is shared yet, so the bundle is empty.

use vstd::prelude::*;

verus! {

/// The (currently empty) bundle of system-wide kernel data.
pub struct SystemData {}

impl SystemData {
    pub fn new() -> (r: SystemData)
        ensures
            r == (SystemData {  }),
    {
        SystemData {  }
    }
}

impl Default for SystemData {
    fn default() -> (r: Self)
        ensures
            r == (SystemData {  }),
    {
        Self::new()
    }
}

} // verus!
