use mk66::sim::dividers_for;

#[test]
fn dividers_at_the_top_frequency() {
    assert_eq!(dividers_for(180_000_000), (3, 7));
    assert_eq!(180_000_000 / 3, 60_000_000);
    assert_eq!(180_000_000 / 7, 25_714_285);
}

#[test]
fn dividers_at_common_frequencies() {
    assert_eq!(dividers_for(0), (1, 1));
    assert_eq!(dividers_for(16_000_000), (1, 1));
    assert_eq!(dividers_for(28_000_000), (1, 1));
    assert_eq!(dividers_for(28_000_001), (1, 2));
    assert_eq!(dividers_for(48_000_000), (1, 2));
    assert_eq!(dividers_for(60_000_000), (1, 3));
    assert_eq!(dividers_for(60_000_001), (2, 3));
    assert_eq!(dividers_for(120_000_000), (2, 5));
    assert_eq!(dividers_for(168_000_000), (3, 6));
}

#[test]
fn dividers_keep_bus_and_flash_within_limits() {
    let freqs = [
        32_000u32,
        4_000_000,
        16_000_000,
        24_000_000,
        48_000_000,
        64_000_000,
        72_000_000,
        96_000_000,
        120_000_000,
        180_000_000,
        u32::MAX,
    ];
    for f in freqs {
        let (bus_div, flash_div) = dividers_for(f);
        assert!(bus_div >= 1 && flash_div >= 1);
        assert!(f / bus_div <= 60_000_000);
        assert!(f / flash_div <= 28_000_000);
        // Smallest such dividers.
        if bus_div > 1 {
            assert!(f / (bus_div - 1) > 60_000_000);
        }
        if flash_div > 1 {
            assert!(f / (flash_div - 1) > 28_000_000);
        }
    }
}

#[test]
fn dividers_are_monotonic_in_the_frequency() {
    let mut prev = dividers_for(0);
    let mut f = 0u32;
    loop {
        let d = dividers_for(f);
        assert!(prev.0 <= d.0);
        assert!(prev.1 <= d.1);
        prev = d;
        if f > u32::MAX - 7_000_001 {
            break;
        }
        f += 7_000_001;
    }
}
