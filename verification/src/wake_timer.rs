//! The flag by which the timer interrupt wakes the main loop.

use vstd::prelude::*;

verus! {

/// A flag that the timer interrupt raises and the main loop takes down.
pub struct WakeTimer {
    raised: bool,
}

impl View for WakeTimer {
    type V = bool;

    /// Whether the flag is raised.
    closed spec fn view(&self) -> bool {
        self.raised
    }
}

impl WakeTimer {
    /// A flag that is not raised.
    pub fn new() -> (timer: WakeTimer)
        ensures
            !timer@,
    {
        WakeTimer { raised: false }
    }

    /// Raises the flag.
    pub fn set(&mut self)
        ensures
            final(self)@,
    {
        self.raised = true;
    }

    /// Takes the flag down.
    pub fn reset(&mut self)
        ensures
            !final(self)@,
    {
        self.raised = false;
    }

    /// Tells whether the flag is raised.
    pub fn get(&self) -> (raised: bool)
        ensures
            raised == self@,
    {
        self.raised
    }
}

} // verus!
