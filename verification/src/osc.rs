//! Driver for the external crystal oscillator: enable with a chosen load
//! capacitance, or disable.

use vstd::prelude::*;

use crate::regs::Event;
use crate::regs::OscRegs;
use crate::regs::Peripherals;

verus! {

/// Program the load capacitance and enable the external reference clock.
pub fn enable(p: &mut Peripherals, capacitance: u8)
    ensures
        final(p).osc == (OscRegs { erclken: true, cap: capacitance }),
        final(p).mcg == old(p).mcg,
        final(p).sim == old(p).sim,
        final(p).smc == old(p).smc,
        final(p).journal@ == old(p).journal@.push(Event::OscEnabled(capacitance)),
{
    // Set the capacitance.
    p.osc.cap = capacitance;

    // Enable the oscillator.
    p.osc.erclken = true;

    p.record(Event::OscEnabled(capacitance));
}

/// Disable the external reference clock.
pub fn disable(p: &mut Peripherals)
    ensures
        final(p).osc == (OscRegs { erclken: false, ..old(p).osc }),
        final(p).mcg == old(p).mcg,
        final(p).sim == old(p).sim,
        final(p).smc == old(p).smc,
        final(p).journal@ == old(p).journal@.push(Event::OscDisabled),
{
    p.osc.erclken = false;

    p.record(Event::OscDisabled);
}

} // verus!
