//! The time source injected into components at registration. Time is a
//! nanosecond count since the UNIX epoch; whoever runs the instance (a
//! backtest replay loop or a live runner) advances it.

use vstd::prelude::*;

verus! {

/// A clock owned by the runtime and advanced explicitly.
pub struct Clock {
    time_ns: u64,
}

impl Clock {
    /// A clock starting at the given nanosecond timestamp.
    pub fn new(time_ns: u64) -> (r: Self)
        ensures
            r.time_ns() == time_ns,
    {
        Clock { time_ns }
    }

    /// The current time in nanoseconds.
    pub closed spec fn time_ns(&self) -> u64 {
        self.time_ns
    }

    /// The current time in nanoseconds.
    pub fn timestamp_ns(&self) -> (r: u64)
        ensures
            r == self.time_ns(),
    {
        self.time_ns
    }

    /// Moves the clock forward (or onto the same instant); time never runs
    /// backwards.
    pub fn set_time(&mut self, time_ns: u64)
        requires
            time_ns >= old(self).time_ns(),
        ensures
            final(self).time_ns() == time_ns,
    {
        self.time_ns = time_ns;
    }
}

impl Clone for Clock {
    fn clone(&self) -> (r: Self)
        ensures
            r.time_ns() == self.time_ns(),
    {
        Clock { time_ns: self.time_ns }
    }
}

} // verus!
