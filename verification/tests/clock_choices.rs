use mk66::clock_pm::IntermediateList;
use mk66::clock_pm::TeensyClockManager;
use mk66::mcg::SystemClockManager;
use mk66::mcg::SystemClockSource;
use mk66::mcg::get_clock_frequency;
use mk66::mcg::pll_factors;
use mk66::mcg::fll_drs;
use mk66::mcg::source_frequency;

#[test]
fn clock_choice_masks_translate_to_sources() {
    let cm = TeensyClockManager::new();
    assert_eq!(cm.convert_to_clock(0x001), SystemClockSource::SlowInternal);
    assert_eq!(cm.convert_to_clock(0x002), SystemClockSource::FastInternal);
    assert_eq!(cm.convert_to_clock(0x004), SystemClockSource::Oscillator);
    assert_eq!(cm.convert_to_clock(0x020), SystemClockSource::IRC48M);
    assert_eq!(cm.convert_to_clock(0x008), SystemClockSource::FLL(24));
    assert_eq!(cm.convert_to_clock(0x010), SystemClockSource::FLL(48));
    assert_eq!(cm.convert_to_clock(0x080), SystemClockSource::FLL(72));
    assert_eq!(cm.convert_to_clock(0x100), SystemClockSource::FLL(96));
    assert_eq!(cm.convert_to_clock(0x040), SystemClockSource::PLL(64));
    assert_eq!(cm.convert_to_clock(0x200), SystemClockSource::PLL(120));
    assert_eq!(cm.convert_to_clock(0x400), SystemClockSource::PLL(180));
    // Unknown masks fall back to the fastest choice.
    assert_eq!(cm.convert_to_clock(0x12345), SystemClockSource::PLL(180));
}

#[test]
fn clockmask_collects_choices_in_range() {
    let cm = TeensyClockManager::new();
    assert_eq!(cm.get_clockmask(0, 200_000_000), 0x7ff);
    assert_eq!(cm.get_clockmask(1, 0), 0);
    assert_eq!(cm.get_clockmask(0, 31_999), 0);
    assert_eq!(cm.get_clockmask(32_000, 32_000), 0x001);
    // Everything from 48 MHz up.
    assert_eq!(
        cm.get_clockmask(48_000_000, 180_000_000),
        0x010 | 0x020 | 0x080 | 0x100 | 0x040 | 0x200 | 0x400
    );
    // A window with a single choice.
    assert_eq!(cm.get_clockmask(100_000_000, 150_000_000), 0x200);
}

#[test]
fn clock_choice_frequencies() {
    let cm = TeensyClockManager::new();
    assert_eq!(cm.get_clock_frequency(0x001), 32_000);
    assert_eq!(cm.get_clock_frequency(0x002), 4_000_000);
    assert_eq!(cm.get_clock_frequency(0x004), 16_000_000);
    assert_eq!(cm.get_clock_frequency(0x020), 48_000_000);
    assert_eq!(cm.get_clock_frequency(0x008), 24_000_000);
    assert_eq!(cm.get_clock_frequency(0x400), 180_000_000);
    assert_eq!(cm.get_num_clock_sources(), 11);
    assert_eq!(cm.get_max_freq(), 180_000_000);
    assert_eq!(cm.get_all_clocks(), 0x7ff);
    assert_eq!(cm.get_compute(), 0x100);
    assert_eq!(cm.get_noncompute(), 0x001);
}

#[test]
fn change_through_the_choice_surface() {
    let cm = TeensyClockManager::new();
    let mut scm = SystemClockManager::new();
    cm.change_system_clock(&mut scm, 0x200);
    assert_eq!(scm.clock_source, SystemClockSource::PLL(120));
    assert_eq!(cm.get_system_frequency(&scm), 120_000_000);
}

#[test]
fn intermediates_for_each_choice_group() {
    let cm = TeensyClockManager::new();
    assert_eq!(
        cm.get_intermediates_list(0x004),
        IntermediateList { intermediates: 0x7db, conflicts: 0x020 }
    );
    assert_eq!(
        cm.get_intermediates_list(0x020),
        IntermediateList { intermediates: 0x7db, conflicts: 0x004 }
    );
    assert_eq!(
        cm.get_intermediates_list(0x008),
        IntermediateList { intermediates: 0x004, conflicts: 0x040 | 0x200 | 0x400 }
    );
    assert_eq!(
        cm.get_intermediates_list(0x400),
        IntermediateList { intermediates: 0x004, conflicts: 0x008 | 0x010 | 0x080 | 0x100 | 0x001 | 0x002 }
    );
    assert_eq!(
        cm.get_intermediates_list(0x12345),
        IntermediateList { intermediates: 0, conflicts: 0 }
    );
}

#[test]
fn pll_and_fll_tables() {
    assert_eq!(pll_factors(64), Some((16, 2)));
    assert_eq!(pll_factors(120), Some((30, 2)));
    assert_eq!(pll_factors(180), Some((45, 2)));
    assert_eq!(pll_factors(128), Some((16, 1)));
    assert_eq!(pll_factors(176), Some((22, 1)));
    assert_eq!(pll_factors(67), None);
    assert_eq!(pll_factors(0), None);

    assert_eq!(fll_drs(24), Some(0));
    assert_eq!(fll_drs(48), Some(1));
    assert_eq!(fll_drs(72), Some(2));
    assert_eq!(fll_drs(96), Some(3));
    assert_eq!(fll_drs(20), None);

    assert_eq!(source_frequency(SystemClockSource::PLL(180)), Some(180_000_000));
    assert_eq!(source_frequency(SystemClockSource::PLL(181)), None);
    assert_eq!(source_frequency(SystemClockSource::FLL(96)), Some(96_000_000));
    assert_eq!(source_frequency(SystemClockSource::FLL(20)), None);
    assert_eq!(source_frequency(SystemClockSource::RTC32K), Some(32_000));

    assert_eq!(get_clock_frequency(SystemClockSource::Oscillator), 16_000_000);
    assert_eq!(get_clock_frequency(SystemClockSource::SlowInternal), 32_000);
    assert_eq!(get_clock_frequency(SystemClockSource::FastInternal), 4_000_000);
    assert_eq!(get_clock_frequency(SystemClockSource::FLL(72)), 72_000_000);
    assert_eq!(get_clock_frequency(SystemClockSource::PLL(100)), 100_000_000);
}
