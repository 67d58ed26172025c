//! Driver for the system mode controller: run-mode escalation between
//! normal run and high-speed run, and the one-shot power-mode protection
//! register.

use vstd::prelude::*;

use crate::regs::Event;
use crate::regs::PMSTAT_HSRUN;
use crate::regs::PMSTAT_RUN;
use crate::regs::Peripherals;
use crate::regs::RUNM_HSRUN;
use crate::regs::RUNM_RUN;
use crate::regs::STOPM_VLPS;
use crate::regs::SmcRegs;

verus! {

/// Write the power-mode protection register, unlocking the given mode
/// classes (any nonzero argument unlocks its class).
///
/// The hardware latches the first write after reset and ignores every
/// later one, so only a write that finds the register unwritten has an
/// effect.
pub fn enable_power_modes(p: &mut Peripherals, hsrun: u8, vlp: u8, lls: u8, vlls: u8)
    ensures
        !old(p).smc.pmprot_written ==> final(p).smc == (SmcRegs {
            pmprot_written: true,
            ahsrun: hsrun != 0,
            avlp: vlp != 0,
            alls: lls != 0,
            avlls: vlls != 0,
            ..old(p).smc
        }),
        old(p).smc.pmprot_written ==> final(p).smc == old(p).smc,
        final(p).mcg == old(p).mcg,
        final(p).sim == old(p).sim,
        final(p).osc == old(p).osc,
        final(p).journal@ == old(p).journal@.push(Event::PowerProtectionSet),
{
    if !p.smc.pmprot_written {
        p.smc.ahsrun = hsrun != 0;
        p.smc.avlp = vlp != 0;
        p.smc.alls = lls != 0;
        p.smc.avlls = vlls != 0;
        p.smc.pmprot_written = true;
    }
    p.record(Event::PowerProtectionSet);
}

/// Return to normal run mode and wait until the mode status reports it.
/// Does nothing, and touches no register, if the chip is already in
/// normal run.
pub fn run_mode(p: &mut Peripherals)
    ensures
        old(p).smc.pmstat == PMSTAT_RUN ==> *final(p) == *old(p),
        old(p).smc.pmstat != PMSTAT_RUN ==> {
            &&& final(p).smc == (SmcRegs { runm: RUNM_RUN, pmstat: PMSTAT_RUN, ..old(p).smc })
            &&& final(p).journal@ == old(p).journal@.push(Event::RunModeNormal)
        },
        final(p).mcg == old(p).mcg,
        final(p).sim == old(p).sim,
        final(p).osc == old(p).osc,
{
    if p.smc.pmstat == PMSTAT_RUN {
        return ;
    }

    p.smc.runm = RUNM_RUN;
    // The mode controller settles into normal run; the status poll of the
    // silicon becomes this modelled status update.
    p.smc.pmstat = PMSTAT_RUN;

    p.record(Event::RunModeNormal);
}

/// Escalate to high-speed run mode and wait until the mode status
/// reports it.  The hardware only honours the request from normal run,
/// and only once high-speed run has been unlocked in the protection
/// register; without the unlock the status would never flip, so that
/// case is excluded outright.
pub fn hsrun_mode(p: &mut Peripherals)
    requires
        old(p).smc.pmstat == PMSTAT_RUN ==> old(p).smc.ahsrun,
    ensures
        old(p).smc.pmstat != PMSTAT_RUN ==> *final(p) == *old(p),
        old(p).smc.pmstat == PMSTAT_RUN ==> {
            &&& final(p).smc == (SmcRegs { runm: RUNM_HSRUN, pmstat: PMSTAT_HSRUN, ..old(p).smc })
            &&& final(p).journal@ == old(p).journal@.push(Event::RunModeHighSpeed)
        },
        final(p).mcg == old(p).mcg,
        final(p).sim == old(p).sim,
        final(p).osc == old(p).osc,
{
    if p.smc.pmstat != PMSTAT_RUN {
        return ;
    }

    p.smc.runm = RUNM_HSRUN;
    // The mode controller settles into high-speed run.
    p.smc.pmstat = PMSTAT_HSRUN;

    p.record(Event::RunModeHighSpeed);
}

/// Select very-low-power stop as the mode entered on the next stop
/// instruction.
pub fn set_vlps(p: &mut Peripherals)
    ensures
        final(p).smc == (SmcRegs { stopm: STOPM_VLPS, ..old(p).smc }),
        final(p).mcg == old(p).mcg,
        final(p).sim == old(p).sim,
        final(p).osc == old(p).osc,
        final(p).journal@ == old(p).journal@.push(Event::StopModeVlps),
{
    p.smc.stopm = STOPM_VLPS;

    p.record(Event::StopModeVlps);
}

} // verus!
