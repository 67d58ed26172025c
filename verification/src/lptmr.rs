//! Low-power timer support types.

use vstd::prelude::*;

verus! {

/// The rate the low-power timer ticks at when driven from the 1 kHz
/// low-power oscillator.
pub struct LptmrFrequency;

impl LptmrFrequency {
    /// Ticks per second.
    pub fn frequency() -> (f: u32)
        ensures
            f == 1000,
    {
        1000
    }
}

} // verus!
