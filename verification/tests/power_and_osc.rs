use mk66::osc;
use mk66::regs::Event;
use mk66::regs::PMSTAT_HSRUN;
use mk66::regs::PMSTAT_RUN;
use mk66::regs::Peripherals;
use mk66::sim;
use mk66::sim::Clock;
use mk66::sim::ClockGate5;
use mk66::sim::ClockGate6;
use mk66::smc;

#[test]
fn protection_register_latches_its_first_write() {
    let mut p = Peripherals::reset();
    assert!(!p.smc.pmprot_written);

    smc::enable_power_modes(&mut p, 1, 0, 0, 0);
    assert!(p.smc.pmprot_written);
    assert!(p.smc.ahsrun);
    assert!(!p.smc.avlp);

    // A second write is ignored by the hardware.
    smc::enable_power_modes(&mut p, 0, 1, 1, 1);
    assert!(p.smc.ahsrun);
    assert!(!p.smc.avlp);
    assert!(!p.smc.alls);
    assert!(!p.smc.avlls);
}

#[test]
fn run_mode_round_trip() {
    let mut p = Peripherals::reset();
    assert_eq!(p.smc.pmstat, PMSTAT_RUN);

    smc::enable_power_modes(&mut p, 1, 0, 0, 0);
    smc::hsrun_mode(&mut p);
    assert_eq!(p.smc.pmstat, PMSTAT_HSRUN);

    // Asking for high-speed run while not in normal run does nothing.
    let len = p.journal.len();
    smc::hsrun_mode(&mut p);
    assert_eq!(p.smc.pmstat, PMSTAT_HSRUN);
    assert_eq!(p.journal.len(), len);

    smc::run_mode(&mut p);
    assert_eq!(p.smc.pmstat, PMSTAT_RUN);

    // Already in normal run: no register is touched.
    let len = p.journal.len();
    smc::run_mode(&mut p);
    assert_eq!(p.journal.len(), len);
}

#[test]
fn stop_mode_selects_vlps() {
    let mut p = Peripherals::reset();
    smc::set_vlps(&mut p);
    assert_eq!(p.smc.stopm, 2);
    assert_eq!(p.journal, vec![Event::StopModeVlps]);
}

#[test]
fn oscillator_enable_and_disable() {
    let mut p = Peripherals::reset();
    assert!(!p.osc.erclken);

    osc::enable(&mut p, 10);
    assert!(p.osc.erclken);
    assert_eq!(p.osc.cap, 10);

    osc::disable(&mut p);
    assert!(!p.osc.erclken);
    assert_eq!(p.journal, vec![Event::OscEnabled(10), Event::OscDisabled]);
}

#[test]
fn clock_gates_set_and_clear_their_bit() {
    let mut p = Peripherals::reset();
    let gate = Clock::Clock5(ClockGate5::PORTA);
    let before = p.sim.scgc5;
    assert!(sim::is_clock_enabled(&p, gate) == (before & (1 << 9) != 0));

    sim::enable_clock(&mut p, gate);
    assert!(sim::is_clock_enabled(&p, gate));
    assert_eq!(p.sim.scgc5, before | (1 << 9));

    sim::disable_clock(&mut p, gate);
    assert!(!sim::is_clock_enabled(&p, gate));
    assert_eq!(p.sim.scgc5, before & !(1 << 9));
}

#[test]
fn deep_sleep_follows_the_gate_state() {
    let mut p = Peripherals::reset();
    // At reset only exempt gates and their reset values are open.
    assert!(sim::deep_sleep_ready(&p));

    sim::enable_clock(&mut p, Clock::Clock6(ClockGate6::PIT));
    assert!(!sim::deep_sleep_ready(&p));

    sim::disable_clock(&mut p, Clock::Clock6(ClockGate6::PIT));
    assert!(sim::deep_sleep_ready(&p));

    // An exempt gate does not keep the chip awake.
    sim::enable_clock(&mut p, Clock::Clock5(ClockGate5::LPTMR));
    assert!(sim::deep_sleep_ready(&p));
}
