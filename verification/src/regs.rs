//! The register model: the clock generator, divider, oscillator and
//! run-mode control registers as one explicit context value.
//!
//! On the chip these are memory-mapped blocks; here each register is held
//! as its typed fields, the way the driver reads and writes them.  The
//! status fields mirror what the hardware reports once it has settled
//! after a control write; every transition in [`crate::mcg`] proves that
//! the state decoded back from the registers is the state it returned, so
//! the busy-poll of the silicon becomes a verified postcondition.  The
//! [`Peripherals`] value also keeps a journal of the hardware operations
//! performed, so callers (and tests) can see that a reconfiguration did
//! exactly the writes, in exactly the order, that the sequencing rules
//! demand.

use vstd::prelude::*;

use crate::state::ClockState;
use crate::state::Ircs;
use crate::state::OscClock;
use crate::state::Xtal;
use crate::state::spec_teensy_16mhz;
use crate::state::spec_teensy_32khz;
use crate::state::spec_teensy_48mhz;
use crate::state::teensy_16mhz;
use crate::state::teensy_32khz;
use crate::state::teensy_48mhz;

verus! {

/// What the clock-select field of control register 1 asks the generator
/// to feed the core with.
#[derive(Clone, Copy, PartialEq, Eq, Structural, Debug)]
pub enum ClkSel {
    /// Output of the FLL or PLL (whichever `plls` selects).
    LockedLoop,
    /// The internal reference directly.
    Internal,
    /// The external reference directly.
    External,
}

/// What the read-only clock-status field reports as the active source.
#[derive(Clone, Copy, PartialEq, Eq, Structural, Debug)]
pub enum ClkStatus {
    Fll,
    Internal,
    External,
    Pll,
}

/// One hardware operation, as recorded in the journal.
#[derive(Clone, Copy, PartialEq, Eq, Structural, Debug)]
pub enum Event {
    /// One edge of the clock state machine completed and its status
    /// poll confirmed the new state.
    Transition(ClockState),
    /// The core/bus/flash divider register was programmed (divider
    /// values, not field encodings).
    DividersSet(u32, u32, u32),
    /// The PLL multiply/divide factors were programmed.
    PllFactorsSet(u32, u32),
    /// The FLL range selector was programmed.
    FllRangeSet(u8),
    /// The one-shot power-mode protection register was written.
    PowerProtectionSet,
    /// The run-mode controller was asked for normal run and confirmed it.
    RunModeNormal,
    /// The run-mode controller was asked for high-speed run and
    /// confirmed it.
    RunModeHighSpeed,
    /// The stop-mode field was set to very-low-power stop.
    StopModeVlps,
    /// The external oscillator was enabled with the given load
    /// capacitance.
    OscEnabled(u8),
    /// The external oscillator was disabled.
    OscDisabled,
}

/// The multipurpose clock generator's register block.
///
/// Fields prefixed `s_` belong to the read-only status register; the
/// model keeps them equal to what the hardware reports once it has
/// settled after the latest control write (`settled`).
pub struct McgRegs {
    // Control register 1.
    pub clks: ClkSel,
    pub frdiv: u8,
    /// Internal reference selected as FLL input.
    pub irefs: bool,
    // Control register 2.
    pub range: u8,
    /// External crystal (rather than an external clock signal) requested.
    pub erefs: bool,
    /// Low-power: FLL and PLL disabled while bypassed.
    pub lp: bool,
    pub ircs: Ircs,
    // Control register 4.
    pub dmx32: bool,
    pub drst_drs: u8,
    // Control register 5: PLL reference divider, stored as value - 1.
    pub prdiv: u32,
    // Control register 6.
    /// PLL (rather than FLL) feeds the locked-loop output.
    pub plls: bool,
    /// PLL multiplier, stored as value - 16.
    pub vdiv: u32,
    // Control register 7.
    pub oscsel: OscClock,
    // Status and control register: fast internal reference divider.
    pub fcrdiv: u8,
    // Status register.
    pub s_clkst: ClkStatus,
    pub s_irefst: bool,
    pub s_pllst: bool,
    pub s_ircst: Ircs,
    pub s_oscinit: bool,
    pub s_lock0: bool,
}

impl McgRegs {
    /// The clock-status value the hardware settles on for the current
    /// control fields.
    pub open spec fn settled_clkst(self) -> ClkStatus {
        match self.clks {
            ClkSel::Internal => ClkStatus::Internal,
            ClkSel::External => ClkStatus::External,
            ClkSel::LockedLoop => if self.plls {
                ClkStatus::Pll
            } else {
                ClkStatus::Fll
            },
        }
    }

    /// The status register agrees with the control registers: the
    /// hardware has settled, which is what the driver's busy-polls wait
    /// for.
    pub open spec fn settled(self) -> bool {
        &&& self.s_clkst == self.settled_clkst()
        &&& self.s_irefst == self.irefs
        &&& self.s_pllst == self.plls
        &&& self.s_ircst == self.ircs
        &&& self.s_oscinit == self.erefs
        &&& self.s_lock0 == (self.plls && !self.lp)
    }

    /// The control fields form one of the eight recognized
    /// configurations.  In particular the PLL is never left selected
    /// with the low-power bit set outside a low-power bypass state,
    /// since it could then never report a lock.
    pub open spec fn recognized(self) -> bool {
        match self.clks {
            ClkSel::LockedLoop => (self.irefs ==> !self.plls) && (self.plls ==> !self.lp),
            ClkSel::Internal => self.irefs && !self.plls,
            ClkSel::External => !self.irefs,
        }
    }

    /// The registers decode to a state: settled and recognized.
    pub open spec fn decodable(self) -> bool {
        self.settled() && self.recognized()
    }

    /// The external reference configuration the reference-select field
    /// points at.
    pub open spec fn spec_xtal(self) -> Xtal {
        match self.oscsel {
            OscClock::Oscillator => spec_teensy_16mhz(),
            OscClock::RTC32K => spec_teensy_32khz(),
            OscClock::IRC48M => spec_teensy_48mhz(),
        }
    }

    /// The clock state the register block encodes.
    pub open spec fn state_of(self) -> ClockState {
        match self.clks {
            ClkSel::LockedLoop => if self.irefs {
                ClockState::Fei
            } else if self.plls {
                ClockState::Pee(self.spec_xtal())
            } else {
                ClockState::Fee(self.spec_xtal())
            },
            ClkSel::Internal => if self.lp {
                ClockState::Blpi(self.ircs)
            } else {
                ClockState::Fbi(self.ircs)
            },
            ClkSel::External => if self.lp {
                ClockState::Blpe(self.spec_xtal())
            } else if self.plls {
                ClockState::Pbe(self.spec_xtal())
            } else {
                ClockState::Fbe(self.spec_xtal())
            },
        }
    }

    /// Recompute the status fields from the control fields: the settling
    /// of the hardware after a control write, which the driver's
    /// busy-polls wait out.
    pub(crate) fn settle(&mut self)
        ensures
            *final(self) == (McgRegs {
                s_clkst: old(self).settled_clkst(),
                s_irefst: old(self).irefs,
                s_pllst: old(self).plls,
                s_ircst: old(self).ircs,
                s_oscinit: old(self).erefs,
                s_lock0: old(self).plls && !old(self).lp,
                ..*old(self)
            }),
            final(self).settled(),
    {
        self.s_clkst = match self.clks {
            ClkSel::Internal => ClkStatus::Internal,
            ClkSel::External => ClkStatus::External,
            ClkSel::LockedLoop => if self.plls {
                ClkStatus::Pll
            } else {
                ClkStatus::Fll
            },
        };
        self.s_irefst = self.irefs;
        self.s_pllst = self.plls;
        self.s_ircst = self.ircs;
        self.s_oscinit = self.erefs;
        self.s_lock0 = self.plls && !self.lp;
    }

    /// The reset configuration: FLL engaged on the slow internal
    /// reference (the state the chip boots in).
    pub fn reset() -> (m: McgRegs)
        ensures
            m == Self::spec_reset(),
    {
        McgRegs {
            clks: ClkSel::LockedLoop,
            frdiv: 0,
            irefs: true,
            range: 0,
            erefs: false,
            lp: false,
            ircs: Ircs::SlowInternal,
            dmx32: false,
            drst_drs: 0,
            prdiv: 0,
            plls: false,
            vdiv: 0,
            oscsel: OscClock::Oscillator,
            fcrdiv: 0,
            s_clkst: ClkStatus::Fll,
            s_irefst: true,
            s_pllst: false,
            s_ircst: Ircs::SlowInternal,
            s_oscinit: false,
            s_lock0: false,
        }
    }

    pub open spec fn spec_reset() -> McgRegs {
        McgRegs {
            clks: ClkSel::LockedLoop,
            frdiv: 0,
            irefs: true,
            range: 0,
            erefs: false,
            lp: false,
            ircs: Ircs::SlowInternal,
            dmx32: false,
            drst_drs: 0,
            prdiv: 0,
            plls: false,
            vdiv: 0,
            oscsel: OscClock::Oscillator,
            fcrdiv: 0,
            s_clkst: ClkStatus::Fll,
            s_irefst: true,
            s_pllst: false,
            s_ircst: Ircs::SlowInternal,
            s_oscinit: false,
            s_lock0: false,
        }
    }
}

/// The system integration module's registers: the clock divider and the
/// peripheral clock-gating registers.
pub struct SimRegs {
    /// Core divider field, stored as divider - 1.
    pub outdiv1: u32,
    /// Bus divider field, stored as divider - 1.
    pub outdiv2: u32,
    /// FlexBus divider field, stored as divider - 1.
    pub outdiv3: u32,
    /// Flash divider field, stored as divider - 1.
    pub outdiv4: u32,
    pub scgc1: u32,
    pub scgc2: u32,
    pub scgc3: u32,
    pub scgc4: u32,
    pub scgc5: u32,
    pub scgc6: u32,
    pub scgc7: u32,
}

impl SimRegs {
    /// Reset values: core and bus undivided, flash at half the core
    /// rate, and only the always-on gates open.
    pub fn reset() -> (s: SimRegs)
        ensures
            s == Self::spec_reset(),
    {
        SimRegs {
            outdiv1: 0,
            outdiv2: 0,
            outdiv3: 0,
            outdiv4: 1,
            scgc1: 0,
            scgc2: 0,
            scgc3: 0,
            scgc4: 0xf010_0030,
            scgc5: 0x0004_0182,
            scgc6: 0x4000_0000,
            scgc7: 0,
        }
    }

    pub open spec fn spec_reset() -> SimRegs {
        SimRegs {
            outdiv1: 0,
            outdiv2: 0,
            outdiv3: 0,
            outdiv4: 1,
            scgc1: 0,
            scgc2: 0,
            scgc3: 0,
            scgc4: 0xf010_0030,
            scgc5: 0x0004_0182,
            scgc6: 0x4000_0000,
            scgc7: 0,
        }
    }
}

/// Run-mode status: normal run.
pub const PMSTAT_RUN: u8 = 1;

/// Run-mode status: high-speed run.
pub const PMSTAT_HSRUN: u8 = 128;

/// Run-mode select field value for normal run.
pub const RUNM_RUN: u8 = 0;

/// Run-mode select field value for high-speed run.
pub const RUNM_HSRUN: u8 = 3;

/// Stop-mode field value for very-low-power stop.
pub const STOPM_VLPS: u8 = 2;

/// The system mode controller's registers.
///
/// The protection register latches its first write after reset and
/// ignores every later one; `pmprot_written` models that latch.
pub struct SmcRegs {
    pub pmprot_written: bool,
    /// High-speed run allowed.
    pub ahsrun: bool,
    /// Very-low-power modes allowed.
    pub avlp: bool,
    /// Low-leakage stop allowed.
    pub alls: bool,
    /// Very-low-leakage stop allowed.
    pub avlls: bool,
    /// Run-mode select field of the control register.
    pub runm: u8,
    /// Stop-mode select field of the control register.
    pub stopm: u8,
    /// Read-only mode status; settles to match `runm`.
    pub pmstat: u8,
}

impl SmcRegs {
    pub fn reset() -> (s: SmcRegs)
        ensures
            s == Self::spec_reset(),
    {
        SmcRegs {
            pmprot_written: false,
            ahsrun: false,
            avlp: false,
            alls: false,
            avlls: false,
            runm: RUNM_RUN,
            stopm: 0,
            pmstat: PMSTAT_RUN,
        }
    }

    pub open spec fn spec_reset() -> SmcRegs {
        SmcRegs {
            pmprot_written: false,
            ahsrun: false,
            avlp: false,
            alls: false,
            avlls: false,
            runm: RUNM_RUN,
            stopm: 0,
            pmstat: PMSTAT_RUN,
        }
    }
}

/// The external oscillator's control register.
pub struct OscRegs {
    /// External reference clock enabled.
    pub erclken: bool,
    /// Load capacitance selection.
    pub cap: u8,
}

impl OscRegs {
    pub fn reset() -> (o: OscRegs)
        ensures
            o == Self::spec_reset(),
    {
        OscRegs { erclken: false, cap: 0 }
    }

    pub open spec fn spec_reset() -> OscRegs {
        OscRegs { erclken: false, cap: 0 }
    }
}

/// Every register block the clock subsystem touches, plus a journal of
/// the reconfiguration operations performed on them, as one explicit
/// context value.  Exactly one of these exists per board; it stands in
/// for the chip's memory-mapped register space.
pub struct Peripherals {
    pub mcg: McgRegs,
    pub sim: SimRegs,
    pub smc: SmcRegs,
    pub osc: OscRegs,
    /// The clock reconfiguration operations performed so far, oldest
    /// first.
    pub journal: Vec<Event>,
}

impl Peripherals {
    /// All blocks in their after-reset configuration, empty journal.
    pub fn reset() -> (p: Peripherals)
        ensures
            p.mcg == McgRegs::spec_reset(),
            p.sim == SimRegs::spec_reset(),
            p.smc == SmcRegs::spec_reset(),
            p.osc == OscRegs::spec_reset(),
            p.journal@ == Seq::<Event>::empty(),
    {
        Peripherals {
            mcg: McgRegs::reset(),
            sim: SimRegs::reset(),
            smc: SmcRegs::reset(),
            osc: OscRegs::reset(),
            journal: Vec::new(),
        }
    }

    /// Append one operation to the journal.
    pub fn record(&mut self, e: Event)
        ensures
            *final(self) == (Peripherals { journal: final(self).journal, ..*old(self) }),
            final(self).journal@ == old(self).journal@.push(e),
    {
        self.journal.push(e);
    }
}

/// How many times an operation appears in a journal.
pub open spec fn count_events(s: Seq<Event>, e: Event) -> nat
    decreases s.len(),
{
    if s.len() == 0 {
        0
    } else {
        count_events(s.drop_last(), e) + (if s.last() == e {
            1nat
        } else {
            0nat
        })
    }
}

/// Appending one operation raises its own count by one and no other.
pub broadcast proof fn lemma_count_events_push(s: Seq<Event>, x: Event, e: Event)
    ensures
        #[trigger] count_events(s.push(x), e) == count_events(s, e) + (if x == e {
            1nat
        } else {
            0nat
        }),
{
    assert(s.push(x).drop_last() =~= s);
}

/// Decode the state of the clock generator from its registers, the way
/// the driver samples the hardware at start-up.
pub fn state(p: &Peripherals) -> (s: ClockState)
    requires
        p.mcg.decodable(),
    ensures
        s == p.mcg.state_of(),
{
    let xtal: Xtal = match p.mcg.oscsel {
        OscClock::Oscillator => teensy_16mhz(),
        OscClock::RTC32K => teensy_32khz(),
        OscClock::IRC48M => teensy_48mhz(),
    };
    match p.mcg.clks {
        ClkSel::LockedLoop => {
            if p.mcg.irefs {
                ClockState::Fei
            } else if p.mcg.plls {
                ClockState::Pee(xtal)
            } else {
                ClockState::Fee(xtal)
            }
        },
        ClkSel::Internal => {
            if p.mcg.lp {
                ClockState::Blpi(p.mcg.ircs)
            } else {
                ClockState::Fbi(p.mcg.ircs)
            }
        },
        ClkSel::External => {
            if p.mcg.lp {
                ClockState::Blpe(xtal)
            } else if p.mcg.plls {
                ClockState::Pbe(xtal)
            } else {
                ClockState::Fbe(xtal)
            }
        },
    }
}

} // verus!
