//! Boot-time clock configuration: from the reset state, bring the core
//! straight up to a requested PLL frequency.

use vstd::prelude::*;

use crate::mcg::SystemClockManager;
use crate::mcg::SystemClockSource;
use crate::mcg::spec_pll_factors;
use crate::mcg::spec_source_frequency;
use crate::regs;
use crate::state::ClockState;

verus! {

/// Configure the system clock to run the core at `core_freq` MHz from
/// the PLL, raising dividers on the way.  Acts only when the generator
/// is still in its reset state (FLL on the internal reference): any
/// other state means configuration has already happened, and the
/// existing setup is left untouched.
pub fn configure(scm: &mut SystemClockManager, core_freq: u32)
    requires
        old(scm).wf(),
        spec_pll_factors(core_freq) is Some,
    ensures
        final(scm).wf(),
        old(scm).peripherals.mcg.state_of() != ClockState::Fei ==> *final(scm) == *old(scm),
        old(scm).peripherals.mcg.state_of() == ClockState::Fei ==> {
            &&& final(scm).clock_source == SystemClockSource::PLL(core_freq)
            &&& Some(final(scm).coreclk) == spec_source_frequency(
                SystemClockSource::PLL(core_freq),
            )
            &&& final(scm).peripherals.mcg.state_of() == ClockState::Pee(
                crate::state::spec_teensy_16mhz(),
            )
        },
{
    let st = regs::state(&scm.peripherals);
    if matches!(st, ClockState::Fei) {
        // In the reset state the tracked source is an FLL one, so this
        // is never a re-request and always runs the full walk.
        let r = scm.change_system_clock(SystemClockSource::PLL(core_freq));
        proof {
            assert(r is Ok);
        }
    } else {
        // We aren't in the reset state, meaning that configuration has
        // already occurred.  Exit without changing anything.
    }
}

} // verus!
