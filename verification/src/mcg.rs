//! Driver for the multipurpose clock generator: the register sequencing
//! for every edge of the legality graph in [`crate::state`], and the
//! system clock manager that walks the graph to reach a requested
//! source.
//!
//! Each transition function performs the control-register writes for
//! exactly one edge and proves, in place of the busy-poll on the
//! silicon, that the state decoded back from the registers is the state
//! it returns: the tracked state and the hardware can never diverge.

use vstd::prelude::*;

use crate::osc;
use crate::regs::Event;
use crate::regs::McgRegs;
use crate::regs::Peripherals;
use crate::regs::state;
use crate::sim;
use crate::smc;
use crate::state::ClockState;
use crate::state::Ircs;
use crate::state::Xtal;
use crate::state::next_toward;
use crate::state::spec_teensy_16mhz;
use crate::state::spec_to_blpe;
use crate::state::spec_to_blpi;
use crate::state::spec_to_fbe;
use crate::state::spec_to_fbi;
use crate::state::spec_to_fee;
use crate::state::spec_to_fei;
use crate::state::spec_to_pbe;
use crate::state::spec_to_pee;
use crate::state::lemma_step_progress;
use crate::state::teensy_16mhz;
use crate::state::xtal_is_preset;
use vstd::arithmetic::div_mod::lemma_div_is_ordered;
use vstd::arithmetic::div_mod::lemma_fundamental_div_mod_converse;

verus! {

use crate::regs::ClkSel;

broadcast use crate::regs::lemma_count_events_push;

/// What a single state-machine edge leaves untouched: the PLL and FLL
/// factor fields and every other peripheral block.
pub open spec fn edge_frame(pre: Peripherals, post: Peripherals) -> bool {
    &&& post.mcg.prdiv == pre.mcg.prdiv
    &&& post.mcg.vdiv == pre.mcg.vdiv
    &&& post.mcg.drst_drs == pre.mcg.drst_drs
    &&& post.mcg.dmx32 == pre.mcg.dmx32
    &&& post.sim == pre.sim
    &&& post.smc == pre.smc
    &&& post.osc == pre.osc
}

/// What every transition function guarantees on top of its frame: the
/// registers decode to the state it returned, and the journal gained
/// exactly that transition.
pub open spec fn edge_post(pre: Peripherals, post: Peripherals, s: ClockState) -> bool {
    &&& edge_frame(pre, post)
    &&& post.mcg.decodable()
    &&& post.mcg.state_of() == s
    &&& post.journal@ == pre.journal@.push(Event::Transition(s))
}

/// Engage the FLL on the slow internal reference.
fn to_fei(p: &mut Peripherals) -> (s: ClockState)
    requires
        old(p).mcg.decodable(),
        old(p).mcg.state_of() is Fee || old(p).mcg.state_of() is Fbi || old(p).mcg.state_of()
            is Fbe,
    ensures
        s == ClockState::Fei,
        edge_post(*old(p), *final(p), s),
{
    p.mcg.clks = ClkSel::LockedLoop;
    p.mcg.irefs = true;
    p.mcg.settle();

    p.record(Event::Transition(ClockState::Fei));
    ClockState::Fei
}

/// Engage the FLL on the external reference `xtal`, selecting it first
/// if the generator is currently on an internal reference.
fn to_fee(p: &mut Peripherals, xtal: Xtal) -> (s: ClockState)
    requires
        old(p).mcg.decodable(),
        xtal_is_preset(xtal),
        old(p).mcg.state_of() == ClockState::Fei || old(p).mcg.state_of() is Fbi || old(
            p,
        ).mcg.state_of() == ClockState::Fbe(xtal),
    ensures
        s == ClockState::Fee(xtal),
        edge_post(*old(p), *final(p), s),
{
    p.mcg.range = xtal.range;

    let st = state(p);
    match st {
        ClockState::Fei | ClockState::Fbi(_) => {
            // The reference-select field may only change while an
            // internal reference is in use.
            if xtal == teensy_16mhz() {
                p.mcg.erefs = true;
            }
            p.mcg.oscsel = xtal.clock;
        },
        _ => {},
    }

    p.mcg.clks = ClkSel::LockedLoop;
    p.mcg.frdiv = xtal.frdiv;
    p.mcg.irefs = false;
    p.mcg.settle();

    p.record(Event::Transition(ClockState::Fee(xtal)));
    ClockState::Fee(xtal)
}

/// Bypass to the chosen internal reference.
fn to_fbi(p: &mut Peripherals, ircs: Ircs) -> (s: ClockState)
    requires
        old(p).mcg.decodable(),
        old(p).mcg.state_of() == ClockState::Fei || old(p).mcg.state_of() is Fee || old(
            p,
        ).mcg.state_of() is Fbi || old(p).mcg.state_of() is Fbe || old(p).mcg.state_of() is Blpi,
    ensures
        s == ClockState::Fbi(ircs),
        edge_post(*old(p), *final(p), s),
{
    p.mcg.fcrdiv = 0;

    p.mcg.lp = false;
    p.mcg.ircs = ircs;

    p.mcg.clks = ClkSel::Internal;
    p.mcg.irefs = true;
    p.mcg.settle();

    p.record(Event::Transition(ClockState::Fbi(ircs)));
    ClockState::Fbi(ircs)
}

/// Enter the low-power internal bypass.
fn to_blpi(p: &mut Peripherals, ircs: Ircs) -> (s: ClockState)
    requires
        old(p).mcg.decodable(),
        old(p).mcg.state_of() is Fbi || old(p).mcg.state_of() is Blpi,
    ensures
        s == ClockState::Blpi(ircs),
        edge_post(*old(p), *final(p), s),
{
    p.mcg.ircs = ircs;
    p.mcg.lp = true;
    p.mcg.settle();

    p.record(Event::Transition(ClockState::Blpi(ircs)));
    ClockState::Blpi(ircs)
}

/// Bypass to the external reference `xtal`, selecting it first if the
/// generator is currently on an internal reference.
fn to_fbe(p: &mut Peripherals, xtal: Xtal) -> (s: ClockState)
    requires
        old(p).mcg.decodable(),
        xtal_is_preset(xtal),
        old(p).mcg.state_of() == ClockState::Fei || old(p).mcg.state_of() == ClockState::Fee(xtal)
            || old(p).mcg.state_of() is Fbi || old(p).mcg.state_of() == ClockState::Pbe(xtal)
            || old(p).mcg.state_of() == ClockState::Blpe(xtal),
    ensures
        s == ClockState::Fbe(xtal),
        edge_post(*old(p), *final(p), s),
{
    let st = state(p);

    p.mcg.lp = false;
    p.mcg.range = xtal.range;

    match st {
        ClockState::Fei | ClockState::Fbi(_) => {
            if xtal == teensy_16mhz() {
                p.mcg.erefs = true;
            }
            p.mcg.oscsel = xtal.clock;
        },
        _ => {},
    }

    p.mcg.plls = false;

    p.mcg.clks = ClkSel::External;
    p.mcg.frdiv = xtal.frdiv;
    p.mcg.irefs = false;
    p.mcg.settle();

    p.record(Event::Transition(ClockState::Fbe(xtal)));
    ClockState::Fbe(xtal)
}

/// Select the PLL as multiplier source while the core stays bypassed to
/// the external reference; confirmed only once the PLL reports a lock.
fn to_pbe(p: &mut Peripherals, xtal: Xtal) -> (s: ClockState)
    requires
        old(p).mcg.decodable(),
        old(p).mcg.state_of() == ClockState::Fbe(xtal) || old(p).mcg.state_of()
            == ClockState::Pee(xtal) || old(p).mcg.state_of() == ClockState::Blpe(xtal),
    ensures
        s == ClockState::Pbe(xtal),
        edge_post(*old(p), *final(p), s),
{
    let st = state(p);
    match st {
        ClockState::Pee(_) => {
            p.mcg.clks = ClkSel::External;
        },
        _ => {
            p.mcg.plls = true;

            p.mcg.lp = false;
        },
    }
    p.mcg.settle();

    p.record(Event::Transition(ClockState::Pbe(xtal)));
    ClockState::Pbe(xtal)
}

/// Enter the low-power external bypass.
fn to_blpe(p: &mut Peripherals, xtal: Xtal) -> (s: ClockState)
    requires
        old(p).mcg.decodable(),
        old(p).mcg.state_of() == ClockState::Fbe(xtal) || old(p).mcg.state_of()
            == ClockState::Pbe(xtal),
    ensures
        s == ClockState::Blpe(xtal),
        edge_post(*old(p), *final(p), s),
{
    p.mcg.lp = true;
    p.mcg.settle();

    p.record(Event::Transition(ClockState::Blpe(xtal)));
    ClockState::Blpe(xtal)
}

/// Feed the core from the PLL output; the PLL is already locked in PBE.
fn to_pee(p: &mut Peripherals, xtal: Xtal) -> (s: ClockState)
    requires
        old(p).mcg.decodable(),
        old(p).mcg.state_of() == ClockState::Pbe(xtal),
    ensures
        s == ClockState::Pee(xtal),
        edge_post(*old(p), *final(p), s),
{
    p.mcg.clks = ClkSel::LockedLoop;
    p.mcg.settle();

    p.record(Event::Transition(ClockState::Pee(xtal)));
    ClockState::Pee(xtal)
}

impl ClockState {
    /// Take the one edge from `self` toward the FEI family.
    pub fn to_fei(self, p: &mut Peripherals) -> (s: ClockState)
        requires
            old(p).mcg.decodable(),
            old(p).mcg.state_of() == self,
        ensures
            s == spec_to_fei(self),
            final(p).mcg.decodable(),
            final(p).mcg.state_of() == s,
            edge_frame(*old(p), *final(p)),
            self == s ==> *final(p) == *old(p),
            self != s ==> final(p).journal@ == old(p).journal@.push(Event::Transition(s)),
    {
        match self {
            ClockState::Fei => ClockState::Fei,
            ClockState::Fee(_) => to_fei(p),
            ClockState::Fbi(_) => to_fei(p),
            ClockState::Fbe(_) => to_fei(p),
            ClockState::Pbe(x) => to_fbe(p, x),
            ClockState::Pee(x) => to_pbe(p, x),
            ClockState::Blpi(i) => to_fbi(p, i),
            ClockState::Blpe(x) => to_fbe(p, x),
        }
    }

    /// Take the one edge from `self` toward FEE on `xtal`.
    pub fn to_fee(self, p: &mut Peripherals, xtal: Xtal) -> (s: ClockState)
        requires
            old(p).mcg.decodable(),
            old(p).mcg.state_of() == self,
            xtal_is_preset(xtal),
        ensures
            s == spec_to_fee(self, xtal),
            final(p).mcg.decodable(),
            final(p).mcg.state_of() == s,
            edge_frame(*old(p), *final(p)),
            self == s ==> *final(p) == *old(p),
            self != s ==> final(p).journal@ == old(p).journal@.push(Event::Transition(s)),
    {
        match self {
            ClockState::Fei => to_fee(p, xtal),
            // The reference-select field cannot change while the
            // reference is in use: drop back to the internal FLL first.
            ClockState::Fee(y) => {
                if y == xtal {
                    self
                } else {
                    to_fei(p)
                }
            },
            ClockState::Fbi(_) => to_fee(p, xtal),
            ClockState::Fbe(y) => {
                if y == xtal {
                    to_fee(p, xtal)
                } else {
                    to_fei(p)
                }
            },
            ClockState::Pbe(y) => to_fbe(p, y),
            ClockState::Pee(y) => to_pbe(p, y),
            ClockState::Blpi(i) => to_fbi(p, i),
            ClockState::Blpe(y) => to_fbe(p, y),
        }
    }

    /// Take the one edge from `self` toward FBI on `ircs`.
    pub fn to_fbi(self, p: &mut Peripherals, ircs: Ircs) -> (s: ClockState)
        requires
            old(p).mcg.decodable(),
            old(p).mcg.state_of() == self,
        ensures
            s == spec_to_fbi(self, ircs),
            final(p).mcg.decodable(),
            final(p).mcg.state_of() == s,
            edge_frame(*old(p), *final(p)),
            final(p).journal@ == old(p).journal@.push(Event::Transition(s)),
    {
        match self {
            ClockState::Fei => to_fbi(p, ircs),
            ClockState::Fee(_) => to_fbi(p, ircs),
            ClockState::Fbi(_) => to_fbi(p, ircs),
            ClockState::Fbe(_) => to_fbi(p, ircs),
            ClockState::Pbe(x) => to_fbe(p, x),
            ClockState::Pee(x) => to_pbe(p, x),
            ClockState::Blpi(_) => to_fbi(p, ircs),
            ClockState::Blpe(x) => to_fbe(p, x),
        }
    }

    /// Take the one edge from `self` toward BLPI on `ircs`.
    pub fn to_blpi(self, p: &mut Peripherals, ircs: Ircs) -> (s: ClockState)
        requires
            old(p).mcg.decodable(),
            old(p).mcg.state_of() == self,
        ensures
            s == spec_to_blpi(self, ircs),
            final(p).mcg.decodable(),
            final(p).mcg.state_of() == s,
            edge_frame(*old(p), *final(p)),
            final(p).journal@ == old(p).journal@.push(Event::Transition(s)),
    {
        match self {
            ClockState::Fei => to_fbi(p, ircs),
            ClockState::Fee(_) => to_fbi(p, ircs),
            ClockState::Fbi(_) => to_blpi(p, ircs),
            ClockState::Fbe(_) => to_fbi(p, ircs),
            ClockState::Pbe(x) => to_fbe(p, x),
            ClockState::Pee(x) => to_pbe(p, x),
            ClockState::Blpi(_) => to_blpi(p, ircs),
            ClockState::Blpe(x) => to_fbe(p, x),
        }
    }

    /// Take the one edge from `self` toward FBE on `xtal`.
    pub fn to_fbe(self, p: &mut Peripherals, xtal: Xtal) -> (s: ClockState)
        requires
            old(p).mcg.decodable(),
            old(p).mcg.state_of() == self,
            xtal_is_preset(xtal),
        ensures
            s == spec_to_fbe(self, xtal),
            final(p).mcg.decodable(),
            final(p).mcg.state_of() == s,
            edge_frame(*old(p), *final(p)),
            self == s ==> *final(p) == *old(p),
            self != s ==> final(p).journal@ == old(p).journal@.push(Event::Transition(s)),
    {
        match self {
            ClockState::Fei => to_fbe(p, xtal),
            ClockState::Fee(y) => {
                if y == xtal {
                    to_fbe(p, xtal)
                } else {
                    to_fbi(p, Ircs::FastInternal)
                }
            },
            ClockState::Fbi(_) => to_fbe(p, xtal),
            ClockState::Fbe(y) => {
                if y == xtal {
                    self
                } else {
                    to_fbi(p, Ircs::FastInternal)
                }
            },
            ClockState::Pbe(y) => to_fbe(p, y),
            ClockState::Pee(y) => to_pbe(p, y),
            ClockState::Blpi(i) => to_fbi(p, i),
            ClockState::Blpe(y) => to_fbe(p, y),
        }
    }

    /// Take the one edge from `self` toward PBE on `xtal`.
    pub fn to_pbe(self, p: &mut Peripherals, xtal: Xtal) -> (s: ClockState)
        requires
            old(p).mcg.decodable(),
            old(p).mcg.state_of() == self,
            xtal_is_preset(xtal),
        ensures
            s == spec_to_pbe(self, xtal),
            final(p).mcg.decodable(),
            final(p).mcg.state_of() == s,
            edge_frame(*old(p), *final(p)),
            self == s ==> *final(p) == *old(p),
            self != s ==> final(p).journal@ == old(p).journal@.push(Event::Transition(s)),
    {
        match self {
            ClockState::Fei => to_fbe(p, xtal),
            ClockState::Fee(y) => {
                if y == xtal {
                    to_fbe(p, xtal)
                } else {
                    to_fbi(p, Ircs::FastInternal)
                }
            },
            ClockState::Fbi(_) => to_fbe(p, xtal),
            ClockState::Fbe(y) => {
                if y == xtal {
                    to_pbe(p, xtal)
                } else {
                    to_fbi(p, Ircs::FastInternal)
                }
            },
            ClockState::Pbe(y) => {
                if y == xtal {
                    self
                } else {
                    to_fbe(p, y)
                }
            },
            ClockState::Pee(y) => to_pbe(p, y),
            ClockState::Blpi(i) => to_fbi(p, i),
            ClockState::Blpe(y) => {
                if y == xtal {
                    to_pbe(p, xtal)
                } else {
                    to_fbe(p, y)
                }
            },
        }
    }

    /// Take the one edge from `self` toward BLPE on `xtal`.
    pub fn to_blpe(self, p: &mut Peripherals, xtal: Xtal) -> (s: ClockState)
        requires
            old(p).mcg.decodable(),
            old(p).mcg.state_of() == self,
            xtal_is_preset(xtal),
        ensures
            s == spec_to_blpe(self, xtal),
            final(p).mcg.decodable(),
            final(p).mcg.state_of() == s,
            edge_frame(*old(p), *final(p)),
            self == s ==> *final(p) == *old(p),
            self != s ==> final(p).journal@ == old(p).journal@.push(Event::Transition(s)),
    {
        match self {
            ClockState::Fei => to_fbe(p, xtal),
            ClockState::Fee(y) => {
                if y == xtal {
                    to_fbe(p, xtal)
                } else {
                    to_fbi(p, Ircs::FastInternal)
                }
            },
            ClockState::Fbi(_) => to_fbe(p, xtal),
            ClockState::Fbe(y) => {
                if y == xtal {
                    to_blpe(p, xtal)
                } else {
                    to_fbi(p, Ircs::FastInternal)
                }
            },
            ClockState::Pbe(y) => {
                if y == xtal {
                    to_blpe(p, xtal)
                } else {
                    to_fbe(p, y)
                }
            },
            ClockState::Pee(y) => to_pbe(p, y),
            ClockState::Blpi(i) => to_fbi(p, i),
            ClockState::Blpe(y) => {
                if y == xtal {
                    self
                } else {
                    to_fbe(p, y)
                }
            },
        }
    }

    /// Take the one edge from `self` toward PEE on `xtal`.
    pub fn to_pee(self, p: &mut Peripherals, xtal: Xtal) -> (s: ClockState)
        requires
            old(p).mcg.decodable(),
            old(p).mcg.state_of() == self,
            xtal_is_preset(xtal),
        ensures
            s == spec_to_pee(self, xtal),
            final(p).mcg.decodable(),
            final(p).mcg.state_of() == s,
            edge_frame(*old(p), *final(p)),
            self == s ==> *final(p) == *old(p),
            self != s ==> final(p).journal@ == old(p).journal@.push(Event::Transition(s)),
    {
        match self {
            ClockState::Fei => to_fbe(p, xtal),
            ClockState::Fee(y) => {
                if y == xtal {
                    to_fbe(p, xtal)
                } else {
                    to_fbi(p, Ircs::FastInternal)
                }
            },
            ClockState::Fbi(_) => to_fbe(p, xtal),
            ClockState::Fbe(y) => {
                if y == xtal {
                    to_pbe(p, xtal)
                } else {
                    to_fbi(p, Ircs::FastInternal)
                }
            },
            ClockState::Pbe(y) => {
                if y == xtal {
                    to_pee(p, xtal)
                } else {
                    to_fbe(p, y)
                }
            },
            ClockState::Pee(y) => {
                if y == xtal {
                    self
                } else {
                    to_pbe(p, y)
                }
            },
            ClockState::Blpi(i) => to_fbi(p, i),
            ClockState::Blpe(y) => {
                if y == xtal {
                    to_pbe(p, xtal)
                } else {
                    to_fbe(p, y)
                }
            },
        }
    }

    /// Perform exactly one hardware transition: the edge adjacent to
    /// `self` that makes progress toward `goal`, then confirm the new
    /// state from the status registers.  Returns the (possibly still
    /// intermediate) state reached.
    pub fn step(self, p: &mut Peripherals, goal: ClockState) -> (n: ClockState)
        requires
            old(p).mcg.decodable(),
            old(p).mcg.state_of() == self,
            goal matches ClockState::Fee(x) ==> xtal_is_preset(x),
            goal matches ClockState::Fbe(x) ==> xtal_is_preset(x),
            goal matches ClockState::Pbe(x) ==> xtal_is_preset(x),
            goal matches ClockState::Pee(x) ==> xtal_is_preset(x),
            goal matches ClockState::Blpe(x) ==> xtal_is_preset(x),
        ensures
            n == next_toward(self, goal),
            final(p).mcg.decodable(),
            final(p).mcg.state_of() == n,
            edge_frame(*old(p), *final(p)),
            self == goal ==> *final(p) == *old(p) && n == self,
            self != goal ==> n != self && final(p).journal@ == old(p).journal@.push(
                Event::Transition(n),
            ),
    {
        if self == goal {
            return self;
        }
        proof {
            lemma_step_progress(self, goal);
        }
        match goal {
            ClockState::Fei => self.to_fei(p),
            ClockState::Fee(x) => self.to_fee(p, x),
            ClockState::Fbi(i) => self.to_fbi(p, i),
            ClockState::Fbe(x) => self.to_fbe(p, x),
            ClockState::Pbe(x) => self.to_pbe(p, x),
            ClockState::Pee(x) => self.to_pee(p, x),
            ClockState::Blpi(i) => self.to_blpi(p, i),
            ClockState::Blpe(x) => self.to_blpe(p, x),
        }
    }
}

/// A requested FLL or PLL output frequency outside the supported table;
/// continuing would run the chip at an undefined frequency, so the
/// request is refused before any register is touched.
#[derive(Clone, Copy, PartialEq, Eq, Structural, Debug)]
pub enum ClockError {
    UnsupportedFrequency,
}

/// The supported PLL output frequencies, in MHz, and the (multiplier,
/// divider) pair that produces each from the 16 MHz crystal.
pub open spec fn spec_pll_factors(freq: u32) -> Option<(u32, u32)> {
    match freq {
        64u32 => Some((16u32, 2u32)),
        68u32 => Some((17u32, 2u32)),
        72u32 => Some((18u32, 2u32)),
        76u32 => Some((19u32, 2u32)),
        80u32 => Some((20u32, 2u32)),
        84u32 => Some((21u32, 2u32)),
        88u32 => Some((22u32, 2u32)),
        92u32 => Some((23u32, 2u32)),
        96u32 => Some((24u32, 2u32)),
        100u32 => Some((25u32, 2u32)),
        104u32 => Some((26u32, 2u32)),
        108u32 => Some((27u32, 2u32)),
        112u32 => Some((28u32, 2u32)),
        116u32 => Some((29u32, 2u32)),
        120u32 => Some((30u32, 2u32)),
        180u32 => Some((45u32, 2u32)),
        128u32 => Some((16u32, 1u32)),
        136u32 => Some((17u32, 1u32)),
        144u32 => Some((18u32, 1u32)),
        152u32 => Some((19u32, 1u32)),
        160u32 => Some((20u32, 1u32)),
        168u32 => Some((21u32, 1u32)),
        176u32 => Some((22u32, 1u32)),
        _ => None,
    }
}

/// Look up the PLL factors for a requested output frequency in MHz.
pub fn pll_factors(freq: u32) -> (r: Option<(u32, u32)>)
    ensures
        r == spec_pll_factors(freq),
{
    match freq {
        64 => Some((16, 2)),
        68 => Some((17, 2)),
        72 => Some((18, 2)),
        76 => Some((19, 2)),
        80 => Some((20, 2)),
        84 => Some((21, 2)),
        88 => Some((22, 2)),
        92 => Some((23, 2)),
        96 => Some((24, 2)),
        100 => Some((25, 2)),
        104 => Some((26, 2)),
        108 => Some((27, 2)),
        112 => Some((28, 2)),
        116 => Some((29, 2)),
        120 => Some((30, 2)),
        180 => Some((45, 2)),
        128 => Some((16, 1)),
        136 => Some((17, 1)),
        144 => Some((18, 1)),
        152 => Some((19, 1)),
        160 => Some((20, 1)),
        168 => Some((21, 1)),
        176 => Some((22, 1)),
        _ => None,
    }
}

/// The supported FLL output frequencies, in MHz, and the range-select
/// encoding for each.
pub open spec fn spec_fll_drs(freq: u32) -> Option<u8> {
    match freq {
        24u32 => Some(0u8),
        48u32 => Some(1u8),
        72u32 => Some(2u8),
        96u32 => Some(3u8),
        _ => None,
    }
}

/// Look up the FLL range selector for a requested output frequency in
/// MHz.
pub fn fll_drs(freq: u32) -> (r: Option<u8>)
    ensures
        r == spec_fll_drs(freq),
{
    match freq {
        24 => Some(0),
        48 => Some(1),
        72 => Some(2),
        96 => Some(3),
        _ => None,
    }
}

/// Program the PLL multiply and divide factors for the given output
/// frequency.  The register holds the divider as value minus one and
/// the multiplier as value minus sixteen.
fn set_pll_freq(p: &mut Peripherals, freq: u32)
    requires
        spec_pll_factors(freq) is Some,
    ensures
        ({
            let fac = spec_pll_factors(freq)->0;
            &&& final(p).mcg == (McgRegs {
                prdiv: (fac.1 - 1) as u32,
                vdiv: (fac.0 - 16) as u32,
                ..old(p).mcg
            })
            &&& final(p).journal@ == old(p).journal@.push(Event::PllFactorsSet(fac.0, fac.1))
        }),
        final(p).sim == old(p).sim,
        final(p).smc == old(p).smc,
        final(p).osc == old(p).osc,
{
    let fac = pll_factors(freq).unwrap();
    let (pll_mul, pll_div) = fac;

    p.mcg.prdiv = pll_div - 1;

    p.mcg.vdiv = pll_mul - 16;

    p.record(Event::PllFactorsSet(pll_mul, pll_div));
}

/// Program the FLL range selector for the given output frequency, with
/// the fine-tune bit for a 32.768 kHz reference.
fn set_fll_freq(p: &mut Peripherals, freq: u32)
    requires
        spec_fll_drs(freq) is Some,
    ensures
        ({
            let drs = spec_fll_drs(freq)->0;
            &&& final(p).mcg == (McgRegs { drst_drs: drs, dmx32: true, ..old(p).mcg })
            &&& final(p).journal@ == old(p).journal@.push(Event::FllRangeSet(drs))
        }),
        final(p).sim == old(p).sim,
        final(p).smc == old(p).smc,
        final(p).osc == old(p).osc,
{
    let drs_val = fll_drs(freq).unwrap();

    p.mcg.drst_drs = drs_val;
    p.mcg.dmx32 = true;

    p.record(Event::FllRangeSet(drs_val));
}

/// A requestable system clock source: one of the raw references run
/// low-power, or the FLL or PLL at a chosen output frequency in MHz.
#[derive(Clone, Copy, PartialEq, Eq, Structural, Debug)]
pub enum SystemClockSource {
    Oscillator,
    RTC32K,
    IRC48M,
    SlowInternal,
    FastInternal,
    FLL(u32),
    PLL(u32),
}

/// The core frequency, in Hz, a source runs at; `None` when the
/// requested FLL or PLL output is not in the supported table.
pub open spec fn spec_source_frequency(clock: SystemClockSource) -> Option<u32> {
    match clock {
        SystemClockSource::Oscillator => Some(16_000_000u32),
        SystemClockSource::RTC32K => Some(32_000u32),
        SystemClockSource::IRC48M => Some(48_000_000u32),
        SystemClockSource::SlowInternal => Some(32_000u32),
        SystemClockSource::FastInternal => Some(4_000_000u32),
        SystemClockSource::FLL(f) => if spec_fll_drs(f) is Some {
            Some((f * 1_000_000) as u32)
        } else {
            None
        },
        SystemClockSource::PLL(f) => if spec_pll_factors(f) is Some {
            Some((f * 1_000_000) as u32)
        } else {
            None
        },
    }
}

/// The core frequency a source would run at, or `None` for an
/// unsupported FLL or PLL output.
pub fn source_frequency(clock: SystemClockSource) -> (r: Option<u32>)
    ensures
        r == spec_source_frequency(clock),
{
    match clock {
        SystemClockSource::Oscillator => Some(16_000_000),
        SystemClockSource::RTC32K => Some(32_000),
        SystemClockSource::IRC48M => Some(48_000_000),
        SystemClockSource::SlowInternal => Some(32_000),
        SystemClockSource::FastInternal => Some(4_000_000),
        SystemClockSource::FLL(f) => match fll_drs(f) {
            Some(_) => Some(f * 1_000_000),
            None => None,
        },
        SystemClockSource::PLL(f) => match pll_factors(f) {
            Some(_) => Some(f * 1_000_000),
            None => None,
        },
    }
}

/// The core frequency, in Hz, of a supported clock source.
pub fn get_clock_frequency(clock: SystemClockSource) -> (r: u32)
    requires
        spec_source_frequency(clock) is Some,
    ensures
        Some(r) == spec_source_frequency(clock),
{
    match clock {
        SystemClockSource::Oscillator => 16_000_000,
        SystemClockSource::RTC32K => 32_000,
        SystemClockSource::IRC48M => 48_000_000,
        SystemClockSource::SlowInternal => 32_000,
        SystemClockSource::FastInternal => 4_000_000,
        SystemClockSource::FLL(freq) => freq * 1_000_000,
        SystemClockSource::PLL(freq) => freq * 1_000_000,
    }
}

/// The clock state a source is served from once reached.
pub open spec fn spec_goal_state(clock: SystemClockSource) -> ClockState {
    match clock {
        SystemClockSource::Oscillator => ClockState::Blpe(spec_teensy_16mhz()),
        SystemClockSource::RTC32K => ClockState::Blpe(crate::state::spec_teensy_32khz()),
        SystemClockSource::IRC48M => ClockState::Blpe(crate::state::spec_teensy_48mhz()),
        SystemClockSource::SlowInternal => ClockState::Blpi(Ircs::SlowInternal),
        SystemClockSource::FastInternal => ClockState::Blpi(Ircs::FastInternal),
        SystemClockSource::FLL(_) => ClockState::Fei,
        SystemClockSource::PLL(_) => ClockState::Pee(spec_teensy_16mhz()),
    }
}

/// The clock state a source is served from once reached.
pub fn goal_state(clock: SystemClockSource) -> (g: ClockState)
    ensures
        g == spec_goal_state(clock),
{
    match clock {
        SystemClockSource::Oscillator => ClockState::Blpe(teensy_16mhz()),
        SystemClockSource::RTC32K => ClockState::Blpe(crate::state::teensy_32khz()),
        SystemClockSource::IRC48M => ClockState::Blpe(crate::state::teensy_48mhz()),
        SystemClockSource::SlowInternal => ClockState::Blpi(Ircs::SlowInternal),
        SystemClockSource::FastInternal => ClockState::Blpi(Ircs::FastInternal),
        SystemClockSource::FLL(_) => ClockState::Fei,
        SystemClockSource::PLL(_) => ClockState::Pee(teensy_16mhz()),
    }
}

/// Highest core frequency the chip runs at.
pub const CORE_FREQ_MAX: u32 = 180_000_000;

/// Highest core frequency normal run mode sustains; anything above
/// needs high-speed run.
pub const NORMAL_RUN_CEILING: u32 = 120_000_000;

/// Every supported source stays within the chip's frequency ceiling.
pub proof fn lemma_source_frequency_bounded(clock: SystemClockSource)
    ensures
        spec_source_frequency(clock) matches Some(f) ==> f <= CORE_FREQ_MAX,
{
}

/// The system clock manager: owns the peripheral registers and tracks
/// the active source, the core, bus and flash frequencies derived from
/// the last completed transition, and whether the one-shot power-mode
/// protection register has been written this boot.
pub struct SystemClockManager {
    pub clock_source: SystemClockSource,
    pub system_initial_configs: bool,
    pub coreclk: u32,
    pub busclk: u32,
    pub flashclk: u32,
    pub peripherals: Peripherals,
}

impl SystemClockManager {
    /// The manager's invariant, established at boot and preserved by
    /// every reconfiguration:
    ///
    /// - the registers decode to the state that serves the tracked
    ///   source, so software and hardware never diverge;
    /// - the tracked bus and flash frequencies follow from the core
    ///   frequency and the programmed dividers, and stay within their
    ///   ceilings;
    /// - the run-mode status is high-speed run exactly when the core
    ///   frequency requires it, the protection register is written at
    ///   most once per boot (the journal shows at most one such write),
    ///   and high-speed run is never entered without that unlock;
    /// - the oscillator is enabled whenever the active source uses the
    ///   crystal.
    pub open spec fn wf(self) -> bool {
        &&& self.peripherals.mcg.decodable()
        &&& self.peripherals.mcg.state_of() == spec_goal_state(self.clock_source)
        &&& self.coreclk <= CORE_FREQ_MAX
        &&& self.busclk == self.coreclk as int / (self.peripherals.sim.outdiv2 + 1)
        &&& self.flashclk == self.coreclk as int / (self.peripherals.sim.outdiv4 + 1)
        &&& self.busclk <= sim::BUS_FREQ_MAX
        &&& self.flashclk <= sim::FLASH_FREQ_MAX
        &&& self.peripherals.smc.pmstat == (if self.coreclk > NORMAL_RUN_CEILING {
            crate::regs::PMSTAT_HSRUN
        } else {
            crate::regs::PMSTAT_RUN
        })
        &&& self.system_initial_configs == self.peripherals.smc.pmprot_written
        &&& (self.peripherals.smc.pmprot_written ==> self.peripherals.smc.ahsrun)
        &&& crate::regs::count_events(self.peripherals.journal@, Event::PowerProtectionSet) == (
        if self.peripherals.smc.pmprot_written {
            1nat
        } else {
            0nat
        })
        &&& ((self.clock_source is Oscillator || self.clock_source is PLL)
            ==> self.peripherals.osc.erclken)
    }

    /// Create the manager in the configuration the chip boots with:
    /// the FLL multiplying the slow internal reference, giving a
    /// 20.48 MHz core, an undivided bus and flash at half the core
    /// rate.
    pub fn new() -> (scm: SystemClockManager)
        ensures
            scm.wf(),
            scm.clock_source == SystemClockSource::FLL(20),
            !scm.system_initial_configs,
            scm.coreclk == 20_480_000,
            scm.busclk == 20_480_000,
            scm.flashclk == 10_240_000,
            scm.peripherals.mcg == McgRegs::spec_reset(),
            scm.peripherals.sim == crate::regs::SimRegs::spec_reset(),
            scm.peripherals.smc == crate::regs::SmcRegs::spec_reset(),
            scm.peripherals.osc == crate::regs::OscRegs::spec_reset(),
            scm.peripherals.journal@ == Seq::<Event>::empty(),
    {
        let scm = SystemClockManager {
            clock_source: SystemClockSource::FLL(20),
            system_initial_configs: false,
            coreclk: 20_480_000,
            busclk: 20_480_000,
            flashclk: 10_240_000,
            peripherals: Peripherals::reset(),
        };
        proof {
            assert(crate::regs::count_events(
                Seq::<Event>::empty(),
                Event::PowerProtectionSet,
            ) == 0);
            // The boot bus clock is undivided and the flash clock is
            // half the core clock.
            lemma_fundamental_div_mod_converse(20_480_000, 1, 20_480_000, 0);
            lemma_fundamental_div_mod_converse(20_480_000, 2, 10_240_000, 0);
        }
        scm
    }

    /// The tracked core frequency, for downstream drivers.
    pub fn core_clock_hz(&self) -> (r: u32)
        ensures
            r == self.coreclk,
    {
        self.coreclk
    }

    /// The tracked bus frequency, for downstream drivers.
    pub fn bus_clock_hz(&self) -> (r: u32)
        ensures
            r == self.busclk,
    {
        self.busclk
    }

    /// The tracked flash frequency, for downstream drivers.
    pub fn flash_clock_hz(&self) -> (r: u32)
        ensures
            r == self.flashclk,
    {
        self.flashclk
    }

    /// The peripheral bus runs at the bus frequency.
    pub fn peripheral_clock_hz(&self) -> (r: u32)
        ensures
            r == self.busclk,
    {
        self.busclk
    }

    /// Program the dividers for `core_freq` and record the frequencies
    /// the buses will see.
    fn configure_div(&mut self, core_freq: u32)
        requires
            core_freq <= CORE_FREQ_MAX,
        ensures
            final(self).coreclk == core_freq,
            final(self).busclk == core_freq as int / sim::spec_bus_divider(core_freq),
            final(self).flashclk == core_freq as int / sim::spec_flash_divider(core_freq),
            final(self).busclk <= sim::BUS_FREQ_MAX,
            final(self).flashclk <= sim::FLASH_FREQ_MAX,
            final(self).clock_source == old(self).clock_source,
            final(self).system_initial_configs == old(self).system_initial_configs,
            final(self).peripherals.mcg == old(self).peripherals.mcg,
            final(self).peripherals.smc == old(self).peripherals.smc,
            final(self).peripherals.osc == old(self).peripherals.osc,
            final(self).peripherals.sim == (crate::regs::SimRegs {
                outdiv1: 0,
                outdiv2: (sim::spec_bus_divider(core_freq) - 1) as u32,
                outdiv3: (sim::spec_bus_divider(core_freq) - 1) as u32,
                outdiv4: (sim::spec_flash_divider(core_freq) - 1) as u32,
                ..old(self).peripherals.sim
            }),
            final(self).peripherals.journal@ == old(self).peripherals.journal@.push(
                Event::DividersSet(
                    1,
                    sim::spec_bus_divider(core_freq) as u32,
                    sim::spec_flash_divider(core_freq) as u32,
                ),
            ),
            1 <= sim::spec_bus_divider(core_freq) <= 16,
            1 <= sim::spec_flash_divider(core_freq) <= 16,
    {
        let (bus_div, flash_div) = sim::dividers_for(core_freq);
        proof {
            // At 180 MHz and below, a divider of 3 suffices for the bus
            // and 7 for the flash, so both fit their 4-bit fields.
            lemma_div_is_ordered(core_freq as int, CORE_FREQ_MAX as int, sim::BUS_FREQ_MAX + 1);
            lemma_div_is_ordered(core_freq as int, CORE_FREQ_MAX as int, sim::FLASH_FREQ_MAX + 1);
            lemma_fundamental_div_mod_converse(180_000_000, 60_000_001, 2, 59_999_998);
            lemma_fundamental_div_mod_converse(180_000_000, 28_000_001, 6, 11_999_994);
        }
        sim::set_dividers(&mut self.peripherals, 1, bus_div, flash_div);

        self.coreclk = core_freq;
        self.busclk = core_freq / bus_div;
        self.flashclk = core_freq / flash_div;
    }

    /// Drive the chip from its current clock configuration to
    /// `clock_source`.
    ///
    /// Re-requesting the active source returns at once without touching
    /// a single register.  An FLL or PLL output frequency outside the
    /// supported table is refused before any register write.  Otherwise
    /// the dividers are raised, and the run mode escalated, before the
    /// source switch when the frequency rises; the state machine is
    /// stepped edge by edge until the target state is reached; and the
    /// dividers are lowered, the run mode de-escalated and the unused
    /// oscillator disabled only after the switch.
    #[verifier::loop_isolation(false)]
    #[verifier::rlimit(100)]
    pub fn change_system_clock(&mut self, clock_source: SystemClockSource) -> (r: Result<
        (),
        ClockError,
    >)
        requires
            old(self).wf(),
        ensures
            final(self).wf(),
            clock_source == old(self).clock_source ==> r is Ok && *final(self) == *old(self),
            r is Ok <==> (clock_source == old(self).clock_source || spec_source_frequency(
                clock_source,
            ) is Some),
            r is Err ==> *final(self) == *old(self),
            r is Ok ==> final(self).clock_source == clock_source,
            r is Ok && clock_source != old(self).clock_source ==> {
                &&& Some(final(self).coreclk) == spec_source_frequency(clock_source)
                &&& final(self).peripherals.mcg.state_of() == spec_goal_state(clock_source)
                &&& final(self).busclk == final(self).coreclk as int / sim::spec_bus_divider(
                    final(self).coreclk,
                )
                &&& final(self).flashclk == final(self).coreclk as int / sim::spec_flash_divider(
                    final(self).coreclk,
                )
            },
            r is Ok && clock_source != old(self).clock_source ==> (clock_source matches
                SystemClockSource::PLL(f) ==> (spec_pll_factors(f) matches Some(fac)
                && final(self).peripherals.mcg.vdiv == fac.0 - 16
                && final(self).peripherals.mcg.prdiv == fac.1 - 1)),
            r is Ok && clock_source != old(self).clock_source ==> (clock_source matches
                SystemClockSource::FLL(f) ==> (spec_fll_drs(f) matches Some(drs)
                && final(self).peripherals.mcg.drst_drs == drs
                && final(self).peripherals.mcg.dmx32)),
    {
        if clock_source == self.clock_source {
            return Ok(());
        }

        let new_clock_freq = match source_frequency(clock_source) {
            Some(f) => f,
            None => { return Err(ClockError::UnsupportedFrequency) },
        };
        proof {
            lemma_source_frequency_bounded(clock_source);
        }

        let mut set_divisors: bool = false;
        if new_clock_freq > self.coreclk {
            // The core is about to speed up: give the buses headroom
            // and unlock the faster run mode first, so nothing is ever
            // clocked beyond its ceiling, even transiently.
            if new_clock_freq > NORMAL_RUN_CEILING {
                if !self.system_initial_configs {
                    smc::enable_power_modes(&mut self.peripherals, 1, 0, 0, 0);
                    self.system_initial_configs = true;
                }
                smc::hsrun_mode(&mut self.peripherals);
            }
            self.configure_div(new_clock_freq);
            set_divisors = true;
        }

        match clock_source {
            SystemClockSource::Oscillator => {
                osc::enable(&mut self.peripherals, teensy_16mhz().load);
            },
            SystemClockSource::PLL(f) => {
                osc::enable(&mut self.peripherals, teensy_16mhz().load);
                set_pll_freq(&mut self.peripherals, f);
            },
            _ => {},
        }

        let goal = goal_state(clock_source);
        let ghost mid = *self;
        let mut clock_state = state(&self.peripherals);
        while clock_state != goal
            invariant
                self.peripherals.mcg.decodable(),
                self.peripherals.mcg.state_of() == clock_state,
                edge_frame(mid.peripherals, self.peripherals),
                self.clock_source == mid.clock_source,
                self.system_initial_configs == mid.system_initial_configs,
                self.coreclk == mid.coreclk,
                self.busclk == mid.busclk,
                self.flashclk == mid.flashclk,
                crate::regs::count_events(self.peripherals.journal@, Event::PowerProtectionSet)
                    == crate::regs::count_events(
                    mid.peripherals.journal@,
                    Event::PowerProtectionSet,
                ),
            decreases crate::state::distance(clock_state, goal),
        {
            let prev = clock_state;
            clock_state = prev.step(&mut self.peripherals, goal);
            proof {
                lemma_step_progress(prev, goal);
            }
        }

        match clock_source {
            SystemClockSource::FLL(f) => {
                set_fll_freq(&mut self.peripherals, f);
            },
            _ => {},
        }

        if !set_divisors {
            // The core slowed down (or kept its rate): trim the
            // dividers, and drop back to normal run, only now that the
            // switch is complete.
            if self.coreclk > NORMAL_RUN_CEILING && new_clock_freq <= NORMAL_RUN_CEILING {
                smc::run_mode(&mut self.peripherals);
            }
            self.configure_div(new_clock_freq);
        }

        match clock_source {
            SystemClockSource::Oscillator | SystemClockSource::PLL(_) => {},
            _ => {
                // The crystal no longer feeds anything.
                osc::disable(&mut self.peripherals);
            },
        }

        self.clock_source = clock_source;
        Ok(())
    }
}

} // verus!

