//! Board-level clock management glue: the discrete clock choices this
//! board offers to a clock arbitration layer, as single-bit masks, and
//! their translation to system clock sources.

use vstd::prelude::*;

use crate::mcg;
use crate::mcg::SystemClockManager;
use crate::mcg::SystemClockSource;
use crate::mcg::spec_source_frequency;

verus! {

pub const SLOWINTERNAL: u32 = 0x001;

pub const FASTINTERNAL: u32 = 0x002;

pub const OSCILLATOR: u32 = 0x004;

pub const FLL24: u32 = 0x008;

pub const FLL48: u32 = 0x010;

pub const IRC48M: u32 = 0x020;

pub const PLL64: u32 = 0x040;

pub const FLL72: u32 = 0x080;

pub const FLL96: u32 = 0x100;

pub const PLL120: u32 = 0x200;

pub const PLL180: u32 = 0x400;

pub const ALL_CLOCKS: u32 = 0x7ff;

/// For one requested clock: the mask of clocks that may serve as
/// intermediates while switching to it, and the mask of clocks that
/// cannot be kept alive while the switch runs.
#[derive(Clone, Copy, PartialEq, Eq, Structural, Debug)]
pub struct IntermediateList {
    pub intermediates: u32,
    pub conflicts: u32,
}

impl IntermediateList {
    pub fn new(intermediates: u32, conflicts: u32) -> (l: IntermediateList)
        ensures
            l == (IntermediateList { intermediates, conflicts }),
    {
        IntermediateList { intermediates, conflicts }
    }
}

/// The source a clock-choice mask stands for.  Unknown masks fall back
/// to the fastest choice, as the arbitration layer expects.
pub open spec fn spec_convert_to_clock(clock: u32) -> SystemClockSource {
    if clock == SLOWINTERNAL {
        SystemClockSource::SlowInternal
    } else if clock == FASTINTERNAL {
        SystemClockSource::FastInternal
    } else if clock == OSCILLATOR {
        SystemClockSource::Oscillator
    } else if clock == IRC48M {
        SystemClockSource::IRC48M
    } else if clock == FLL24 {
        SystemClockSource::FLL(24)
    } else if clock == FLL48 {
        SystemClockSource::FLL(48)
    } else if clock == FLL72 {
        SystemClockSource::FLL(72)
    } else if clock == FLL96 {
        SystemClockSource::FLL(96)
    } else if clock == PLL64 {
        SystemClockSource::PLL(64)
    } else if clock == PLL120 {
        SystemClockSource::PLL(120)
    } else {
        SystemClockSource::PLL(180)
    }
}

/// The mask of clock choices whose frequency lies in `[min_freq,
/// max_freq]`.
pub open spec fn spec_clockmask(min_freq: u32, max_freq: u32) -> u32 {
    if min_freq > max_freq {
        0
    } else {
        ((if min_freq <= 32_000 && max_freq >= 32_000 {
            SLOWINTERNAL
        } else {
            0
        }) + (if min_freq <= 4_000_000 && max_freq >= 4_000_000 {
            FASTINTERNAL
        } else {
            0
        }) + (if min_freq <= 16_000_000 && max_freq >= 16_000_000 {
            OSCILLATOR
        } else {
            0
        }) + (if min_freq <= 24_000_000 && max_freq >= 24_000_000 {
            FLL24
        } else {
            0
        }) + (if min_freq <= 48_000_000 && max_freq >= 48_000_000 {
            IRC48M + FLL48
        } else {
            0
        }) + (if min_freq <= 72_000_000 && max_freq >= 72_000_000 {
            FLL72
        } else {
            0
        }) + (if min_freq <= 96_000_000 && max_freq >= 96_000_000 {
            FLL96
        } else {
            0
        }) + (if min_freq <= 64_000_000 && max_freq >= 64_000_000 {
            PLL64
        } else {
            0
        }) + (if min_freq <= 120_000_000 && max_freq >= 120_000_000 {
            PLL120
        } else {
            0
        }) + (if min_freq <= 180_000_000 && max_freq >= 180_000_000 {
            PLL180
        } else {
            0
        })) as u32
    }
}

/// The clock management surface of this board.
pub struct TeensyClockManager;

impl TeensyClockManager {
    pub fn new() -> (m: TeensyClockManager)
        ensures
            m == (TeensyClockManager {  }),
    {
        TeensyClockManager {  }
    }

    /// Translate a clock-choice mask to its system clock source.
    /// Choices are roughly ordered from least to most power hungry.
    pub fn convert_to_clock(&self, clock: u32) -> (s: SystemClockSource)
        ensures
            s == spec_convert_to_clock(clock),
    {
        if clock == SLOWINTERNAL {
            SystemClockSource::SlowInternal
        } else if clock == FASTINTERNAL {
            SystemClockSource::FastInternal
        } else if clock == OSCILLATOR {
            SystemClockSource::Oscillator
        } else if clock == IRC48M {
            SystemClockSource::IRC48M
        } else if clock == FLL24 {
            SystemClockSource::FLL(24)
        } else if clock == FLL48 {
            SystemClockSource::FLL(48)
        } else if clock == FLL72 {
            SystemClockSource::FLL(72)
        } else if clock == FLL96 {
            SystemClockSource::FLL(96)
        } else if clock == PLL64 {
            SystemClockSource::PLL(64)
        } else if clock == PLL120 {
            SystemClockSource::PLL(120)
        } else {
            SystemClockSource::PLL(180)
        }
    }

    /// How many distinct clock choices the board offers.
    pub fn get_num_clock_sources(&self) -> (n: u32)
        ensures
            n == 11,
    {
        11
    }

    /// The fastest frequency any choice runs the core at.
    pub fn get_max_freq(&self) -> (f: u32)
        ensures
            f == 180_000_000,
    {
        180_000_000
    }

    /// The mask of every clock choice.
    pub fn get_all_clocks(&self) -> (m: u32)
        ensures
            m == ALL_CLOCKS,
    {
        ALL_CLOCKS
    }

    /// The default choice for compute-bound work.
    pub fn get_compute(&self) -> (m: u32)
        ensures
            m == FLL96,
    {
        FLL96
    }

    /// The default choice for idle work.
    pub fn get_noncompute(&self) -> (m: u32)
        ensures
            m == SLOWINTERNAL,
    {
        SLOWINTERNAL
    }

    /// The mask of clock choices whose frequency lies between
    /// `min_freq` and `max_freq`.
    pub fn get_clockmask(&self, min_freq: u32, max_freq: u32) -> (m: u32)
        ensures
            m == spec_clockmask(min_freq, max_freq),
    {
        if min_freq > max_freq {
            return 0;
        }

        let mut clockmask: u32 = 0;

        if min_freq <= 32_000 && max_freq >= 32_000 {
            clockmask += SLOWINTERNAL;
        }
        if min_freq <= 4_000_000 && max_freq >= 4_000_000 {
            clockmask += FASTINTERNAL;
        }
        if min_freq <= 16_000_000 && max_freq >= 16_000_000 {
            clockmask += OSCILLATOR;
        }
        if min_freq <= 24_000_000 && max_freq >= 24_000_000 {
            clockmask += FLL24;
        }
        if min_freq <= 48_000_000 && max_freq >= 48_000_000 {
            clockmask += IRC48M + FLL48;
        }
        if min_freq <= 72_000_000 && max_freq >= 72_000_000 {
            clockmask += FLL72;
        }
        if min_freq <= 96_000_000 && max_freq >= 96_000_000 {
            clockmask += FLL96;
        }
        if min_freq <= 64_000_000 && max_freq >= 64_000_000 {
            clockmask += PLL64;
        }
        if min_freq <= 120_000_000 && max_freq >= 120_000_000 {
            clockmask += PLL120;
        }
        if min_freq <= 180_000_000 && max_freq >= 180_000_000 {
            clockmask += PLL180;
        }

        clockmask
    }

    /// The core frequency, in Hz, of a clock choice.
    pub fn get_clock_frequency(&self, clock: u32) -> (f: u32)
        ensures
            Some(f) == spec_source_frequency(spec_convert_to_clock(clock)),
    {
        let system_clock = self.convert_to_clock(clock);
        mcg::get_clock_frequency(system_clock)
    }

    /// The core frequency the system currently runs at.
    pub fn get_system_frequency(&self, scm: &SystemClockManager) -> (f: u32)
        ensures
            f == scm.coreclk,
    {
        scm.core_clock_hz()
    }

    /// Reconfigure the system to the given clock choice.  Every choice
    /// translates to a supported source, so this never fails.
    pub fn change_system_clock(&self, scm: &mut SystemClockManager, clock: u32)
        requires
            old(scm).wf(),
        ensures
            final(scm).wf(),
            final(scm).clock_source == spec_convert_to_clock(clock),
    {
        let system_clock = self.convert_to_clock(clock);
        let r = scm.change_system_clock(system_clock);
        proof {
            assert(r is Ok);
        }
    }

    /// For one requested clock choice, which choices may bridge the
    /// transition and which cannot survive it.
    pub fn get_intermediates_list(&self, clock: u32) -> (l: IntermediateList)
        ensures
            l == spec_intermediates_list(clock),
    {
        let external_clocks = OSCILLATOR | IRC48M;
        let pll = PLL64 | PLL120 | PLL180;
        let fll = FLL24 | FLL48 | FLL72 | FLL96;
        if clock == OSCILLATOR || clock == IRC48M {
            IntermediateList::new(ALL_CLOCKS & !external_clocks, external_clocks & !clock)
        } else if clock == FLL24 || clock == FLL48 || clock == FLL72 || clock == FLL96 || clock
            == SLOWINTERNAL || clock == FASTINTERNAL {
            IntermediateList::new(OSCILLATOR, pll)
        } else if clock == PLL64 || clock == PLL120 || clock == PLL180 {
            IntermediateList::new(OSCILLATOR, fll | SLOWINTERNAL | FASTINTERNAL)
        } else {
            IntermediateList::new(0, 0)
        }
    }
}

/// For one requested clock choice, which choices may bridge the
/// transition and which cannot survive it.
pub open spec fn spec_intermediates_list(clock: u32) -> IntermediateList {
    let external_clocks = OSCILLATOR | IRC48M;
    let pll = PLL64 | PLL120 | PLL180;
    let fll = FLL24 | FLL48 | FLL72 | FLL96;
    if clock == OSCILLATOR || clock == IRC48M {
        IntermediateList {
            intermediates: ALL_CLOCKS & !external_clocks,
            conflicts: external_clocks & !clock,
        }
    } else if clock == FLL24 || clock == FLL48 || clock == FLL72 || clock == FLL96 || clock
        == SLOWINTERNAL || clock == FASTINTERNAL {
        IntermediateList { intermediates: OSCILLATOR, conflicts: pll }
    } else if clock == PLL64 || clock == PLL120 || clock == PLL180 {
        IntermediateList { intermediates: OSCILLATOR, conflicts: fll | SLOWINTERNAL | FASTINTERNAL }
    } else {
        IntermediateList { intermediates: 0, conflicts: 0 }
    }
}

} // verus!
