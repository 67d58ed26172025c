use mk66::mcg::ClockError;
use mk66::mcg::SystemClockManager;
use mk66::mcg::SystemClockSource;
use mk66::regs::Event;
use mk66::regs::state;
use mk66::state::ClockState;
use mk66::state::teensy_16mhz;
use mk66::state::teensy_48mhz;

#[test]
fn boot_state_matches_reset() {
    let scm = SystemClockManager::new();
    assert_eq!(scm.clock_source, SystemClockSource::FLL(20));
    assert_eq!(scm.core_clock_hz(), 20_480_000);
    assert_eq!(scm.bus_clock_hz(), 20_480_000);
    assert_eq!(scm.flash_clock_hz(), 10_240_000);
    assert_eq!(scm.peripheral_clock_hz(), 20_480_000);
    assert_eq!(state(&scm.peripherals), ClockState::Fei);
    assert!(scm.peripherals.journal.is_empty());
}

#[test]
fn raise_to_pll_180_walks_fbe_pbe_pee() {
    let mut scm = SystemClockManager::new();
    let r = scm.change_system_clock(SystemClockSource::PLL(180));
    assert_eq!(r, Ok(()));

    let x = teensy_16mhz();
    // Dividers are raised and the run mode escalated before the source
    // is touched; the walk from the boot state takes the direct
    // FEI -> FBE edge, then FBE -> PBE -> PEE.
    assert_eq!(
        scm.peripherals.journal,
        vec![
            Event::PowerProtectionSet,
            Event::RunModeHighSpeed,
            Event::DividersSet(1, 3, 7),
            Event::OscEnabled(10),
            Event::PllFactorsSet(45, 2),
            Event::Transition(ClockState::Fbe(x)),
            Event::Transition(ClockState::Pbe(x)),
            Event::Transition(ClockState::Pee(x)),
        ]
    );

    // The run mode was escalated exactly once.
    let escalations = scm
        .peripherals
        .journal
        .iter()
        .filter(|e| **e == Event::RunModeHighSpeed)
        .count();
    assert_eq!(escalations, 1);

    assert_eq!(scm.core_clock_hz(), 180_000_000);
    assert!(scm.bus_clock_hz() <= 60_000_000);
    assert!(scm.flash_clock_hz() <= 28_000_000);
    assert_eq!(scm.bus_clock_hz(), 60_000_000);
    assert_eq!(scm.flash_clock_hz(), 180_000_000 / 7);
    assert_eq!(state(&scm.peripherals), ClockState::Pee(x));
}

#[test]
fn lower_to_fll_24_deescalates_after_the_switch() {
    let mut scm = SystemClockManager::new();
    scm.change_system_clock(SystemClockSource::PLL(180)).unwrap();
    let before = scm.peripherals.journal.len();

    let r = scm.change_system_clock(SystemClockSource::FLL(24));
    assert_eq!(r, Ok(()));

    let x = teensy_16mhz();
    // The run mode drops, and the oscillator goes off, only after the
    // last transition of the source switch.
    assert_eq!(
        &scm.peripherals.journal[before..],
        &[
            Event::Transition(ClockState::Pbe(x)),
            Event::Transition(ClockState::Fbe(x)),
            Event::Transition(ClockState::Fei),
            Event::FllRangeSet(0),
            Event::RunModeNormal,
            Event::DividersSet(1, 1, 1),
            Event::OscDisabled,
        ]
    );
    assert_eq!(scm.core_clock_hz(), 24_000_000);
    assert_eq!(scm.bus_clock_hz(), 24_000_000);
    assert_eq!(scm.flash_clock_hz(), 24_000_000);
}

#[test]
fn rerequest_performs_no_register_writes() {
    let mut scm = SystemClockManager::new();
    scm.change_system_clock(SystemClockSource::IRC48M).unwrap();
    let journal_before = scm.peripherals.journal.clone();
    let core = scm.core_clock_hz();

    let r = scm.change_system_clock(SystemClockSource::IRC48M);
    assert_eq!(r, Ok(()));
    assert_eq!(scm.peripherals.journal, journal_before);
    assert_eq!(scm.core_clock_hz(), core);
    assert_eq!(scm.clock_source, SystemClockSource::IRC48M);
}

#[test]
fn reference_swap_routes_through_internal_state() {
    let mut scm = SystemClockManager::new();
    scm.change_system_clock(SystemClockSource::Oscillator).unwrap();
    let before = scm.peripherals.journal.len();

    scm.change_system_clock(SystemClockSource::IRC48M).unwrap();

    // Between leaving the crystal and reaching the 48 MHz reference the
    // walk must pass an internal-reference state; no step swaps one
    // external reference for another directly.
    let visited: Vec<ClockState> = scm.peripherals.journal[before..]
        .iter()
        .filter_map(|e| match e {
            Event::Transition(s) => Some(*s),
            _ => None,
        })
        .collect();
    let internal_at = visited
        .iter()
        .position(|s| matches!(s, ClockState::Fbi(_) | ClockState::Blpi(_) | ClockState::Fei));
    let first_48 = visited
        .iter()
        .position(|s| match s {
            ClockState::Fee(x)
            | ClockState::Fbe(x)
            | ClockState::Pbe(x)
            | ClockState::Pee(x)
            | ClockState::Blpe(x) => *x == teensy_48mhz(),
            _ => false,
        });
    let internal_at = internal_at.expect("no internal-reference state on the route");
    let first_48 = first_48.expect("the 48 MHz reference was never reached");
    assert!(internal_at < first_48);
    assert_eq!(state(&scm.peripherals), ClockState::Blpe(teensy_48mhz()));
}

#[test]
fn unsupported_pll_frequency_is_rejected_before_any_write() {
    let mut scm = SystemClockManager::new();
    let r = scm.change_system_clock(SystemClockSource::PLL(67));
    assert_eq!(r, Err(ClockError::UnsupportedFrequency));
    assert!(scm.peripherals.journal.is_empty());
    assert_eq!(scm.clock_source, SystemClockSource::FLL(20));
    assert_eq!(scm.core_clock_hz(), 20_480_000);
    assert_eq!(state(&scm.peripherals), ClockState::Fei);
}

#[test]
fn unsupported_fll_frequency_is_rejected_before_any_write() {
    let mut scm = SystemClockManager::new();
    let r = scm.change_system_clock(SystemClockSource::FLL(21));
    assert_eq!(r, Err(ClockError::UnsupportedFrequency));
    assert!(scm.peripherals.journal.is_empty());
    assert_eq!(scm.clock_source, SystemClockSource::FLL(20));
}

#[test]
fn protection_register_written_once_across_many_changes() {
    let mut scm = SystemClockManager::new();
    scm.change_system_clock(SystemClockSource::PLL(180)).unwrap();
    scm.change_system_clock(SystemClockSource::FLL(24)).unwrap();
    scm.change_system_clock(SystemClockSource::PLL(168)).unwrap();
    scm.change_system_clock(SystemClockSource::SlowInternal).unwrap();
    scm.change_system_clock(SystemClockSource::PLL(128)).unwrap();
    let writes = scm
        .peripherals
        .journal
        .iter()
        .filter(|e| **e == Event::PowerProtectionSet)
        .count();
    assert_eq!(writes, 1);
}

#[test]
fn every_supported_source_is_reached_and_respects_ceilings() {
    let sources = [
        SystemClockSource::Oscillator,
        SystemClockSource::RTC32K,
        SystemClockSource::IRC48M,
        SystemClockSource::SlowInternal,
        SystemClockSource::FastInternal,
        SystemClockSource::FLL(24),
        SystemClockSource::FLL(48),
        SystemClockSource::FLL(72),
        SystemClockSource::FLL(96),
        SystemClockSource::PLL(64),
        SystemClockSource::PLL(120),
        SystemClockSource::PLL(180),
    ];
    let mut scm = SystemClockManager::new();
    for src in sources {
        scm.change_system_clock(src).unwrap();
        assert_eq!(scm.clock_source, src);
        assert!(scm.bus_clock_hz() <= 60_000_000);
        assert!(scm.flash_clock_hz() <= 28_000_000);
        assert!(scm.core_clock_hz() <= 180_000_000);
    }
}

#[test]
fn step_terminates_within_the_route_bound() {
    // The longest route in the graph: between two PLL states on
    // different references.
    let mut scm = SystemClockManager::new();
    scm.change_system_clock(SystemClockSource::PLL(180)).unwrap();
    assert_eq!(state(&scm.peripherals), ClockState::Pee(teensy_16mhz()));

    let goal = ClockState::Pee(teensy_48mhz());
    let start = state(&scm.peripherals);
    let mut st = start;
    let mut steps = 0;
    while st != goal {
        st = st.step(&mut scm.peripherals, goal);
        steps += 1;
        assert!(steps <= 6);
        // The walk never revisits its starting state.
        assert_ne!(st, start);
    }
    assert_eq!(steps, 6);
    assert_eq!(state(&scm.peripherals), goal);
}
