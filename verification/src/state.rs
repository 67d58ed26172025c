//! The clock state machine: the eight legal configurations of the
//! multipurpose clock generator and the legality graph of one-step
//! transitions between them.
//!
//! This module is pure: it decides, for a current state and a requested
//! target, which single adjacent edge makes progress toward the target.
//! The register programming for each edge lives in [`crate::mcg`].

use vstd::prelude::*;

verus! {

/// Which external reference clock the generator is configured to use.
#[derive(Clone, Copy, PartialEq, Eq, Structural, Debug)]
pub enum OscClock {
    /// The 16 MHz crystal oscillator.
    Oscillator,
    /// The 32 kHz RTC crystal.
    RTC32K,
    /// The internal 48 MHz reference routed through the external path.
    IRC48M,
}

/// Which internal reference oscillator is active.
#[derive(Clone, Copy, PartialEq, Eq, Structural, Debug)]
pub enum Ircs {
    SlowInternal,
    FastInternal,
}

/// An external reference configuration: the clock to select and the
/// register encodings that go with it (frequency range, FLL reference
/// divider, crystal load capacitance in pF).
#[derive(Clone, Copy, PartialEq, Eq, Structural, Debug)]
pub struct Xtal {
    pub clock: OscClock,
    pub range: u8,
    pub frdiv: u8,
    pub load: u8,
}

/// The Teensy 3.6 16 MHz crystal configuration.
pub open spec fn spec_teensy_16mhz() -> Xtal {
    Xtal { clock: OscClock::Oscillator, range: 2, frdiv: 4, load: 10 }
}

/// The Teensy 3.6 32 kHz RTC crystal configuration.
pub open spec fn spec_teensy_32khz() -> Xtal {
    Xtal { clock: OscClock::RTC32K, range: 0, frdiv: 0, load: 10 }
}

/// The internal 48 MHz reference, seen through the external-reference path.
pub open spec fn spec_teensy_48mhz() -> Xtal {
    Xtal { clock: OscClock::IRC48M, range: 2, frdiv: 7, load: 10 }
}

pub fn teensy_16mhz() -> (x: Xtal)
    ensures
        x == spec_teensy_16mhz(),
{
    Xtal { clock: OscClock::Oscillator, range: 2, frdiv: 4, load: 10 }
}

pub fn teensy_32khz() -> (x: Xtal)
    ensures
        x == spec_teensy_32khz(),
{
    Xtal { clock: OscClock::RTC32K, range: 0, frdiv: 0, load: 10 }
}

pub fn teensy_48mhz() -> (x: Xtal)
    ensures
        x == spec_teensy_48mhz(),
{
    Xtal { clock: OscClock::IRC48M, range: 2, frdiv: 7, load: 10 }
}

/// True for the three reference configurations this board can select.
pub open spec fn xtal_is_preset(x: Xtal) -> bool {
    x == spec_teensy_16mhz() || x == spec_teensy_32khz() || x == spec_teensy_48mhz()
}

/// One of the eight legal configurations of the clock generator.
///
/// States that use an external reference carry which one, because the
/// hardware reference-select field cannot change while it is in use;
/// bypassed-internal states carry which internal oscillator is active.
#[derive(Clone, Copy, PartialEq, Eq, Structural, Debug)]
pub enum ClockState {
    /// FLL engaged, internal reference.
    Fei,
    /// FLL engaged, external reference.
    Fee(Xtal),
    /// FLL bypassed, internal reference drives the core.
    Fbi(Ircs),
    /// FLL bypassed, external reference drives the core.
    Fbe(Xtal),
    /// PLL selected as multiplier source, core still on the external reference.
    Pbe(Xtal),
    /// PLL output drives the core.
    Pee(Xtal),
    /// Low-power bypassed internal.
    Blpi(Ircs),
    /// Low-power bypassed external.
    Blpe(Xtal),
}

/// The external reference a state occupies, if any.  While this is `Some`,
/// the hardware reference-select field may not be reprogrammed.
pub open spec fn external_xtal(s: ClockState) -> Option<Xtal> {
    match s {
        ClockState::Fei => None,
        ClockState::Fee(x) => Some(x),
        ClockState::Fbi(_) => None,
        ClockState::Fbe(x) => Some(x),
        ClockState::Pbe(x) => Some(x),
        ClockState::Pee(x) => Some(x),
        ClockState::Blpi(_) => None,
        ClockState::Blpe(x) => Some(x),
    }
}

// The next state on the one legal edge out of `s` that makes progress
// toward each target family.  These functions mirror the hardware's
// adjacency rules: PLL states are entered only from an external bypass
// state, a different external reference is approached only through an
// internal-reference state, and low-power states toggle with their
// full-power counterparts.

pub open spec fn spec_to_fei(s: ClockState) -> ClockState {
    match s {
        ClockState::Fei => ClockState::Fei,
        ClockState::Fee(_) => ClockState::Fei,
        ClockState::Fbi(_) => ClockState::Fei,
        ClockState::Fbe(_) => ClockState::Fei,
        ClockState::Pbe(x) => ClockState::Fbe(x),
        ClockState::Pee(x) => ClockState::Pbe(x),
        ClockState::Blpi(i) => ClockState::Fbi(i),
        ClockState::Blpe(x) => ClockState::Fbe(x),
    }
}

pub open spec fn spec_to_fee(s: ClockState, x: Xtal) -> ClockState {
    match s {
        ClockState::Fei => ClockState::Fee(x),
        ClockState::Fee(y) => if y == x { ClockState::Fee(x) } else { ClockState::Fei },
        ClockState::Fbi(_) => ClockState::Fee(x),
        ClockState::Fbe(y) => if y == x { ClockState::Fee(x) } else { ClockState::Fei },
        ClockState::Pbe(y) => ClockState::Fbe(y),
        ClockState::Pee(y) => ClockState::Pbe(y),
        ClockState::Blpi(i) => ClockState::Fbi(i),
        ClockState::Blpe(y) => ClockState::Fbe(y),
    }
}

pub open spec fn spec_to_fbi(s: ClockState, i: Ircs) -> ClockState {
    match s {
        ClockState::Fei => ClockState::Fbi(i),
        ClockState::Fee(_) => ClockState::Fbi(i),
        ClockState::Fbi(_) => ClockState::Fbi(i),
        ClockState::Fbe(_) => ClockState::Fbi(i),
        ClockState::Pbe(x) => ClockState::Fbe(x),
        ClockState::Pee(x) => ClockState::Pbe(x),
        ClockState::Blpi(_) => ClockState::Fbi(i),
        ClockState::Blpe(x) => ClockState::Fbe(x),
    }
}

pub open spec fn spec_to_blpi(s: ClockState, i: Ircs) -> ClockState {
    match s {
        ClockState::Fei => ClockState::Fbi(i),
        ClockState::Fee(_) => ClockState::Fbi(i),
        ClockState::Fbi(_) => ClockState::Blpi(i),
        ClockState::Fbe(_) => ClockState::Fbi(i),
        ClockState::Pbe(x) => ClockState::Fbe(x),
        ClockState::Pee(x) => ClockState::Pbe(x),
        ClockState::Blpi(_) => ClockState::Blpi(i),
        ClockState::Blpe(x) => ClockState::Fbe(x),
    }
}

pub open spec fn spec_to_fbe(s: ClockState, x: Xtal) -> ClockState {
    match s {
        ClockState::Fei => ClockState::Fbe(x),
        ClockState::Fee(y) => if y == x {
            ClockState::Fbe(x)
        } else {
            ClockState::Fbi(Ircs::FastInternal)
        },
        ClockState::Fbi(_) => ClockState::Fbe(x),
        ClockState::Fbe(y) => if y == x {
            ClockState::Fbe(x)
        } else {
            ClockState::Fbi(Ircs::FastInternal)
        },
        ClockState::Pbe(y) => ClockState::Fbe(y),
        ClockState::Pee(y) => ClockState::Pbe(y),
        ClockState::Blpi(i) => ClockState::Fbi(i),
        ClockState::Blpe(y) => ClockState::Fbe(y),
    }
}

pub open spec fn spec_to_pbe(s: ClockState, x: Xtal) -> ClockState {
    match s {
        ClockState::Fei => ClockState::Fbe(x),
        ClockState::Fee(y) => if y == x {
            ClockState::Fbe(x)
        } else {
            ClockState::Fbi(Ircs::FastInternal)
        },
        ClockState::Fbi(_) => ClockState::Fbe(x),
        ClockState::Fbe(y) => if y == x {
            ClockState::Pbe(x)
        } else {
            ClockState::Fbi(Ircs::FastInternal)
        },
        ClockState::Pbe(y) => if y == x { ClockState::Pbe(x) } else { ClockState::Fbe(y) },
        ClockState::Pee(y) => ClockState::Pbe(y),
        ClockState::Blpi(i) => ClockState::Fbi(i),
        ClockState::Blpe(y) => if y == x { ClockState::Pbe(x) } else { ClockState::Fbe(y) },
    }
}

pub open spec fn spec_to_blpe(s: ClockState, x: Xtal) -> ClockState {
    match s {
        ClockState::Fei => ClockState::Fbe(x),
        ClockState::Fee(y) => if y == x {
            ClockState::Fbe(x)
        } else {
            ClockState::Fbi(Ircs::FastInternal)
        },
        ClockState::Fbi(_) => ClockState::Fbe(x),
        ClockState::Fbe(y) => if y == x {
            ClockState::Blpe(x)
        } else {
            ClockState::Fbi(Ircs::FastInternal)
        },
        ClockState::Pbe(y) => if y == x { ClockState::Blpe(x) } else { ClockState::Fbe(y) },
        ClockState::Pee(y) => ClockState::Pbe(y),
        ClockState::Blpi(i) => ClockState::Fbi(i),
        ClockState::Blpe(y) => if y == x { ClockState::Blpe(x) } else { ClockState::Fbe(y) },
    }
}

pub open spec fn spec_to_pee(s: ClockState, x: Xtal) -> ClockState {
    match s {
        ClockState::Fei => ClockState::Fbe(x),
        ClockState::Fee(y) => if y == x {
            ClockState::Fbe(x)
        } else {
            ClockState::Fbi(Ircs::FastInternal)
        },
        ClockState::Fbi(_) => ClockState::Fbe(x),
        ClockState::Fbe(y) => if y == x {
            ClockState::Pbe(x)
        } else {
            ClockState::Fbi(Ircs::FastInternal)
        },
        ClockState::Pbe(y) => if y == x { ClockState::Pee(x) } else { ClockState::Fbe(y) },
        ClockState::Pee(y) => if y == x { ClockState::Pee(x) } else { ClockState::Pbe(y) },
        ClockState::Blpi(i) => ClockState::Fbi(i),
        ClockState::Blpe(y) => if y == x { ClockState::Pbe(x) } else { ClockState::Fbe(y) },
    }
}

/// The single edge out of `s` that makes progress toward `goal`.
pub open spec fn next_toward(s: ClockState, goal: ClockState) -> ClockState {
    match goal {
        ClockState::Fei => spec_to_fei(s),
        ClockState::Fee(x) => spec_to_fee(s, x),
        ClockState::Fbi(i) => spec_to_fbi(s, i),
        ClockState::Fbe(x) => spec_to_fbe(s, x),
        ClockState::Pbe(x) => spec_to_pbe(s, x),
        ClockState::Pee(x) => spec_to_pee(s, x),
        ClockState::Blpi(i) => spec_to_blpi(s, i),
        ClockState::Blpe(x) => spec_to_blpe(s, x),
    }
}

// The number of edges on the route from `s` to each target, used both as
// the termination measure of the reconfiguration loop and to bound it.

pub open spec fn dist_to_fei(s: ClockState) -> nat {
    match s {
        ClockState::Fei => 0,
        ClockState::Fee(_) => 1,
        ClockState::Fbi(_) => 1,
        ClockState::Fbe(_) => 1,
        ClockState::Pbe(_) => 2,
        ClockState::Pee(_) => 3,
        ClockState::Blpi(_) => 2,
        ClockState::Blpe(_) => 2,
    }
}

pub open spec fn dist_to_fee(s: ClockState, x: Xtal) -> nat {
    match s {
        ClockState::Fei => 1,
        ClockState::Fee(y) => if y == x { 0 } else { 2 },
        ClockState::Fbi(_) => 1,
        ClockState::Fbe(y) => if y == x { 1 } else { 2 },
        ClockState::Pbe(y) => if y == x { 2 } else { 3 },
        ClockState::Pee(y) => if y == x { 3 } else { 4 },
        ClockState::Blpi(_) => 2,
        ClockState::Blpe(y) => if y == x { 2 } else { 3 },
    }
}

pub open spec fn dist_to_fbi(s: ClockState, i: Ircs) -> nat {
    match s {
        ClockState::Fei => 1,
        ClockState::Fee(_) => 1,
        ClockState::Fbi(j) => if j == i { 0 } else { 1 },
        ClockState::Fbe(_) => 1,
        ClockState::Pbe(_) => 2,
        ClockState::Pee(_) => 3,
        ClockState::Blpi(_) => 1,
        ClockState::Blpe(_) => 2,
    }
}

pub open spec fn dist_to_blpi(s: ClockState, i: Ircs) -> nat {
    match s {
        ClockState::Fei => 2,
        ClockState::Fee(_) => 2,
        ClockState::Fbi(_) => 1,
        ClockState::Fbe(_) => 2,
        ClockState::Pbe(_) => 3,
        ClockState::Pee(_) => 4,
        ClockState::Blpi(j) => if j == i { 0 } else { 1 },
        ClockState::Blpe(_) => 3,
    }
}

pub open spec fn dist_to_fbe(s: ClockState, x: Xtal) -> nat {
    match s {
        ClockState::Fei => 1,
        ClockState::Fee(y) => if y == x { 1 } else { 2 },
        ClockState::Fbi(_) => 1,
        ClockState::Fbe(y) => if y == x { 0 } else { 2 },
        ClockState::Pbe(y) => if y == x { 1 } else { 3 },
        ClockState::Pee(y) => if y == x { 2 } else { 4 },
        ClockState::Blpi(_) => 2,
        ClockState::Blpe(y) => if y == x { 1 } else { 3 },
    }
}

pub open spec fn dist_to_pbe(s: ClockState, x: Xtal) -> nat {
    match s {
        ClockState::Fei => 2,
        ClockState::Fee(y) => if y == x { 2 } else { 3 },
        ClockState::Fbi(_) => 2,
        ClockState::Fbe(y) => if y == x { 1 } else { 3 },
        ClockState::Pbe(y) => if y == x { 0 } else { 4 },
        ClockState::Pee(y) => if y == x { 1 } else { 5 },
        ClockState::Blpi(_) => 3,
        ClockState::Blpe(y) => if y == x { 1 } else { 4 },
    }
}

pub open spec fn dist_to_blpe(s: ClockState, x: Xtal) -> nat {
    match s {
        ClockState::Fei => 2,
        ClockState::Fee(y) => if y == x { 2 } else { 3 },
        ClockState::Fbi(_) => 2,
        ClockState::Fbe(y) => if y == x { 1 } else { 3 },
        ClockState::Pbe(y) => if y == x { 1 } else { 4 },
        ClockState::Pee(y) => if y == x { 2 } else { 5 },
        ClockState::Blpi(_) => 3,
        ClockState::Blpe(y) => if y == x { 0 } else { 4 },
    }
}

pub open spec fn dist_to_pee(s: ClockState, x: Xtal) -> nat {
    match s {
        ClockState::Fei => 3,
        ClockState::Fee(y) => if y == x { 3 } else { 4 },
        ClockState::Fbi(_) => 3,
        ClockState::Fbe(y) => if y == x { 2 } else { 4 },
        ClockState::Pbe(y) => if y == x { 1 } else { 5 },
        ClockState::Pee(y) => if y == x { 0 } else { 6 },
        ClockState::Blpi(_) => 4,
        ClockState::Blpe(y) => if y == x { 2 } else { 5 },
    }
}

/// How many edges the route from `s` to `goal` still has to take.
pub open spec fn distance(s: ClockState, goal: ClockState) -> nat {
    match goal {
        ClockState::Fei => dist_to_fei(s),
        ClockState::Fee(x) => dist_to_fee(s, x),
        ClockState::Fbi(i) => dist_to_fbi(s, i),
        ClockState::Fbe(x) => dist_to_fbe(s, x),
        ClockState::Pbe(x) => dist_to_pbe(s, x),
        ClockState::Pee(x) => dist_to_pee(s, x),
        ClockState::Blpi(i) => dist_to_blpi(s, i),
        ClockState::Blpe(x) => dist_to_blpe(s, x),
    }
}

/// The longest route in the legality graph: moving between two PLL states
/// on different references takes six edges.
pub const MAX_ROUTE_LEN: u8 = 6;

/// A goal is a fixed point of the routing, and the only state at
/// distance zero from itself.
pub proof fn lemma_goal_fixed(goal: ClockState)
    ensures
        next_toward(goal, goal) == goal,
        distance(goal, goal) == 0,
{
}

/// Every step strictly shrinks the remaining distance, every distance is
/// at most `MAX_ROUTE_LEN`, and only the goal itself is at distance zero.
pub proof fn lemma_step_progress(s: ClockState, goal: ClockState)
    requires
        s != goal,
    ensures
        distance(next_toward(s, goal), goal) < distance(s, goal),
        distance(s, goal) <= MAX_ROUTE_LEN,
        distance(s, goal) >= 1,
{
}

/// The state reached after steering `n` steps from `s` toward `goal`.
pub open spec fn walk_n(s: ClockState, goal: ClockState, n: nat) -> ClockState
    decreases n,
{
    if n == 0 {
        s
    } else {
        walk_n(next_toward(s, goal), goal, (n - 1) as nat)
    }
}

/// Once the goal is reached, further steps stay there.
pub proof fn lemma_walk_stays(goal: ClockState, n: nat)
    ensures
        walk_n(goal, goal, n) == goal,
    decreases n,
{
    if n > 0 {
        lemma_goal_fixed(goal);
        lemma_walk_stays(goal, (n - 1) as nat);
    }
}

/// Steering from `s` toward `goal` arrives within `distance(s, goal)` steps.
pub proof fn lemma_walk_reaches(s: ClockState, goal: ClockState, n: nat)
    requires
        distance(s, goal) <= n,
    ensures
        walk_n(s, goal, n) == goal,
    decreases n,
{
    if s == goal {
        lemma_walk_stays(goal, n);
    } else {
        lemma_step_progress(s, goal);
        lemma_walk_reaches(next_toward(s, goal), goal, (n - 1) as nat);
    }
}

/// Repeatedly stepping from any state toward any goal terminates: at most
/// `MAX_ROUTE_LEN` transitions are ever needed.
pub proof fn lemma_routing_terminates(s: ClockState, goal: ClockState)
    ensures
        walk_n(s, goal, MAX_ROUTE_LEN as nat) == goal,
{
    if s == goal {
        lemma_walk_stays(goal, MAX_ROUTE_LEN as nat);
    } else {
        lemma_step_progress(s, goal);
        lemma_walk_reaches(s, goal, MAX_ROUTE_LEN as nat);
    }
}

/// After `i >= 1` steps the remaining distance has strictly shrunk.
proof fn lemma_walk_distance_shrinks(s: ClockState, goal: ClockState, i: nat)
    requires
        s != goal,
        i >= 1,
    ensures
        distance(walk_n(s, goal, i), goal) < distance(s, goal),
    decreases i,
{
    lemma_step_progress(s, goal);
    let n = next_toward(s, goal);
    if i == 1 {
    } else if n == goal {
        lemma_walk_stays(goal, (i - 1) as nat);
        lemma_goal_fixed(goal);
    } else {
        lemma_walk_distance_shrinks(n, goal, (i - 1) as nat);
    }
}

/// A route never revisits its starting state: each later state is strictly
/// closer to the goal than the start was.
pub proof fn lemma_never_revisits_start(s: ClockState, goal: ClockState, i: nat)
    requires
        s != goal,
        i >= 1,
    ensures
        walk_n(s, goal, i) != s,
{
    lemma_walk_distance_shrinks(s, goal, i);
}

/// A single step never swaps one external reference for another: from a
/// state occupying external reference `a`, the next state either still
/// occupies `a` or has released the external path to an internal state.
/// Reprogramming the reference-select field is only ever done from an
/// internal-reference state.
pub proof fn lemma_no_direct_reference_swap(s: ClockState, goal: ClockState)
    ensures
        external_xtal(s) is Some && external_xtal(next_toward(s, goal)) is Some
            ==> external_xtal(next_toward(s, goal)) == external_xtal(s),
{
}

/// As long as a route has not passed through an internal-reference state,
/// it is still on the external reference it started with.
pub proof fn lemma_external_reference_stable(s: ClockState, goal: ClockState, n: nat)
    requires
        external_xtal(s) is Some,
        forall|i: nat| i <= n ==> external_xtal(#[trigger] walk_n(s, goal, i)) is Some,
    ensures
        external_xtal(walk_n(s, goal, n)) == external_xtal(s),
    decreases n,
{
    if n > 0 {
        let nx = next_toward(s, goal);
        assert(external_xtal(walk_n(s, goal, 1)) is Some);
        assert(walk_n(s, goal, 1) == walk_n(nx, goal, 0));
        assert(walk_n(s, goal, 1) == nx);
        lemma_no_direct_reference_swap(s, goal);
        assert forall|i: nat| i <= n - 1 implies external_xtal(
            #[trigger] walk_n(nx, goal, i),
        ) is Some by {
            assert(walk_n(nx, goal, i) == walk_n(s, goal, (i + 1) as nat));
        }
        lemma_external_reference_stable(nx, goal, (n - 1) as nat);
        assert(walk_n(nx, goal, (n - 1) as nat) == walk_n(s, goal, n));
    }
}

/// Reaching a goal on a different external reference forces the route
/// through an internal-reference state on the way.
pub proof fn lemma_reference_swap_routes_internal(s: ClockState, goal: ClockState, n: nat)
    requires
        external_xtal(s) is Some,
        external_xtal(goal) is Some,
        external_xtal(goal) != external_xtal(s),
        walk_n(s, goal, n) == goal,
    ensures
        exists|i: nat| i <= n && external_xtal(#[trigger] walk_n(s, goal, i)) is None,
{
    if forall|i: nat| i <= n ==> external_xtal(#[trigger] walk_n(s, goal, i)) is Some {
        lemma_external_reference_stable(s, goal, n);
        assert(false);
    } else {
        let i = choose|i: nat| !(i <= n ==> external_xtal(#[trigger] walk_n(s, goal, i)) is Some);
        assert(i <= n && external_xtal(walk_n(s, goal, i)) is None);
    }
}

} // verus!
