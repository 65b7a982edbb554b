//! A cycle counter for the processing units.
use vstd::prelude::*;

verus! {

/// Represents the internal Clock which
/// can be used for each processing unit.
#[derive(Copy, Clone, PartialEq, Eq, Structural, Debug)]
pub struct Clock {
    pub t_cycle: u32,
}

impl Clock {
    /// A clock at zero.
    pub fn new() -> (r: Self)
        ensures
            r.t_cycle == 0,
    {
        Self { t_cycle: 0 }
    }

    /// Advances the clock by `cycles`, wrapping around at 2^32.
    pub fn advance(&mut self, cycles: u32)
        ensures
            final(self).t_cycle == (old(self).t_cycle + cycles) % 0x1_0000_0000,
    {
        self.t_cycle = self.t_cycle.wrapping_add(cycles);
    }

    /// The cycles counted so far.
    pub fn ticks(&self) -> (r: u32)
        ensures
            r == self.t_cycle,
    {
        self.t_cycle
    }

    /// Sets the clock back to zero.
    pub fn reset(&mut self)
        ensures
            final(self).t_cycle == 0,
    {
        self.t_cycle = 0;
    }
}

} // verus!
