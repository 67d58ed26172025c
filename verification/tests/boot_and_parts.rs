use mk66::adc::AdcChannel;
use mk66::clock::configure;
use mk66::components::AdcComponent;
use mk66::components::ClockComponent;
use mk66::components::LedComponent;
use mk66::components::NonvolatileStorageComponent;
use mk66::components::XConsoleComponent;
use mk66::dma::DMAPeripheral;
use mk66::dma::TransferConfig;
use mk66::flash::K66Sector;
use mk66::flash::SECTOR_SIZE;
use mk66::lptmr::LptmrFrequency;
use mk66::mcg::SystemClockManager;
use mk66::mcg::SystemClockSource;
use mk66::regs::state;
use mk66::state::ClockState;
use mk66::state::teensy_16mhz;

#[test]
fn boot_configure_brings_the_pll_up() {
    let mut scm = SystemClockManager::new();
    configure(&mut scm, 120);
    assert_eq!(scm.clock_source, SystemClockSource::PLL(120));
    assert_eq!(scm.core_clock_hz(), 120_000_000);
    assert_eq!(state(&scm.peripherals), ClockState::Pee(teensy_16mhz()));

    // A second call finds the generator already configured and leaves
    // everything untouched.
    let journal_before = scm.peripherals.journal.clone();
    configure(&mut scm, 180);
    assert_eq!(scm.clock_source, SystemClockSource::PLL(120));
    assert_eq!(scm.peripherals.journal, journal_before);
}

#[test]
fn transfer_config_encodes_a_16_bit_gather() {
    let c = TransferConfig::new(0x4003_b010, 0x2000_0000, 2, 8);
    assert_eq!(c.saddr, 0x4003_b010);
    assert_eq!(c.daddr, 0x2000_0000);
    assert_eq!(c.soff, 0);
    assert_eq!(c.ssize, 1);
    assert_eq!(c.dsize, 1);
    assert_eq!(c.nbytes, 2);
    assert_eq!(c.doff, 2);
    assert_eq!(c.citer, 8);
    assert_eq!(c.biter, 8);
    assert_eq!(c.slast, 0);
    assert_eq!(c.dlastsga, 0);
}

#[test]
fn dma_request_sources_match_the_multiplexer_table() {
    assert_eq!(DMAPeripheral::TSI0.request_number(), 1);
    assert_eq!(DMAPeripheral::UART0_RX.request_number(), 2);
    assert_eq!(DMAPeripheral::UART4.request_number(), 10);
    assert_eq!(DMAPeripheral::I2S0_RX.request_number(), 12);
    assert_eq!(DMAPeripheral::FTM0_CH0.request_number(), 20);
    assert_eq!(DMAPeripheral::FTM3_CH7_SPI2_TX.request_number(), 39);
    assert_eq!(DMAPeripheral::ADC0.request_number(), 40);
    assert_eq!(DMAPeripheral::PDB.request_number(), 48);
}

#[test]
fn adc_channel_keeps_its_coordinates() {
    let ch = AdcChannel::new(1, 0x23);
    assert_eq!(ch.adc_num, 1);
    assert_eq!(ch.chan_num, 0x23);
}

#[test]
fn flash_sector_starts_zeroed() {
    let s = K66Sector::new();
    assert_eq!(s.len(), SECTOR_SIZE);
    assert_eq!(s.0.len(), 4096);
    assert!(s.0.iter().all(|b| *b == 0));
}

#[test]
fn lptmr_ticks_at_one_khz() {
    assert_eq!(LptmrFrequency::frequency(), 1000);
}

#[test]
fn components_construct() {
    let _ = AdcComponent::new();
    let _ = ClockComponent::new();
    let _ = NonvolatileStorageComponent::new();
    let _ = XConsoleComponent::new();
    let _ = LedComponent::new();
}
