//! Driver for the system integration module: the core/bus/flash clock
//! divider register, and the divider policy that keeps the bus at or
//! below 60 MHz and the flash at or below 28 MHz for any core frequency.

use vstd::prelude::*;

use vstd::arithmetic::div_mod::lemma_basic_div;
use vstd::arithmetic::div_mod::lemma_div_is_ordered;
use vstd::arithmetic::div_mod::lemma_div_is_ordered_by_denominator;
use vstd::arithmetic::div_mod::lemma_fundamental_div_mod;
use vstd::arithmetic::div_mod::lemma_fundamental_div_mod_converse;

use crate::regs::Event;
use crate::regs::Peripherals;
use crate::regs::SimRegs;

verus! {

/// A peripheral clock gate in the first gating register.
#[derive(Clone, Copy, PartialEq, Eq, Structural, Debug)]
pub enum ClockGate1 {
    I2C2,
    I2C3,
    UART4,
}

impl ClockGate1 {
    /// Bit position of this gate in its register.
    pub open spec fn spec_bit(self) -> u32 {
        match self {
            ClockGate1::I2C2 => 6,
            ClockGate1::I2C3 => 7,
            ClockGate1::UART4 => 10,
        }
    }

    pub fn bit(self) -> (b: u32)
        ensures
            b == self.spec_bit(),
            b < 32,
    {
        match self {
            ClockGate1::I2C2 => 6,
            ClockGate1::I2C3 => 7,
            ClockGate1::UART4 => 10,
        }
    }
}

/// A peripheral clock gate in the second gating register.
#[derive(Clone, Copy, PartialEq, Eq, Structural, Debug)]
pub enum ClockGate2 {
    ENET,
    LPUART0,
    TPM1,
    TPM2,
    DAC0,
    DAC1,
}

impl ClockGate2 {
    /// Bit position of this gate in its register.
    pub open spec fn spec_bit(self) -> u32 {
        match self {
            ClockGate2::ENET => 0,
            ClockGate2::LPUART0 => 4,
            ClockGate2::TPM1 => 9,
            ClockGate2::TPM2 => 10,
            ClockGate2::DAC0 => 12,
            ClockGate2::DAC1 => 13,
        }
    }

    pub fn bit(self) -> (b: u32)
        ensures
            b == self.spec_bit(),
            b < 32,
    {
        match self {
            ClockGate2::ENET => 0,
            ClockGate2::LPUART0 => 4,
            ClockGate2::TPM1 => 9,
            ClockGate2::TPM2 => 10,
            ClockGate2::DAC0 => 12,
            ClockGate2::DAC1 => 13,
        }
    }
}

/// A peripheral clock gate in the third gating register.
#[derive(Clone, Copy, PartialEq, Eq, Structural, Debug)]
pub enum ClockGate3 {
    RNGA,
    USBHS,
    USBHSPHY,
    USBHSDCD,
    FLEXCAN1,
    SPI2,
    SDHC,
    FTM2,
    FTM3,
    ADC1,
}

impl ClockGate3 {
    /// Bit position of this gate in its register.
    pub open spec fn spec_bit(self) -> u32 {
        match self {
            ClockGate3::RNGA => 0,
            ClockGate3::USBHS => 1,
            ClockGate3::USBHSPHY => 2,
            ClockGate3::USBHSDCD => 3,
            ClockGate3::FLEXCAN1 => 4,
            ClockGate3::SPI2 => 12,
            ClockGate3::SDHC => 17,
            ClockGate3::FTM2 => 24,
            ClockGate3::FTM3 => 25,
            ClockGate3::ADC1 => 27,
        }
    }

    pub fn bit(self) -> (b: u32)
        ensures
            b == self.spec_bit(),
            b < 32,
    {
        match self {
            ClockGate3::RNGA => 0,
            ClockGate3::USBHS => 1,
            ClockGate3::USBHSPHY => 2,
            ClockGate3::USBHSDCD => 3,
            ClockGate3::FLEXCAN1 => 4,
            ClockGate3::SPI2 => 12,
            ClockGate3::SDHC => 17,
            ClockGate3::FTM2 => 24,
            ClockGate3::FTM3 => 25,
            ClockGate3::ADC1 => 27,
        }
    }
}

/// A peripheral clock gate in the fourth gating register.
#[derive(Clone, Copy, PartialEq, Eq, Structural, Debug)]
pub enum ClockGate4 {
    EWM,
    CMT,
    I2C0,
    I2C1,
    UART0,
    UART1,
    UART2,
    UART3,
    USBOTG,
    CMP,
    VREF,
}

impl ClockGate4 {
    /// Bit position of this gate in its register.
    pub open spec fn spec_bit(self) -> u32 {
        match self {
            ClockGate4::EWM => 1,
            ClockGate4::CMT => 2,
            ClockGate4::I2C0 => 6,
            ClockGate4::I2C1 => 7,
            ClockGate4::UART0 => 10,
            ClockGate4::UART1 => 11,
            ClockGate4::UART2 => 12,
            ClockGate4::UART3 => 13,
            ClockGate4::USBOTG => 18,
            ClockGate4::CMP => 19,
            ClockGate4::VREF => 20,
        }
    }

    pub fn bit(self) -> (b: u32)
        ensures
            b == self.spec_bit(),
            b < 32,
    {
        match self {
            ClockGate4::EWM => 1,
            ClockGate4::CMT => 2,
            ClockGate4::I2C0 => 6,
            ClockGate4::I2C1 => 7,
            ClockGate4::UART0 => 10,
            ClockGate4::UART1 => 11,
            ClockGate4::UART2 => 12,
            ClockGate4::UART3 => 13,
            ClockGate4::USBOTG => 18,
            ClockGate4::CMP => 19,
            ClockGate4::VREF => 20,
        }
    }
}

/// A peripheral clock gate in the fifth gating register.
#[derive(Clone, Copy, PartialEq, Eq, Structural, Debug)]
pub enum ClockGate5 {
    LPTMR,
    TSI,
    PORTA,
    PORTB,
    PORTC,
    PORTD,
    PORTE,
}

impl ClockGate5 {
    /// Bit position of this gate in its register.
    pub open spec fn spec_bit(self) -> u32 {
        match self {
            ClockGate5::LPTMR => 0,
            ClockGate5::TSI => 5,
            ClockGate5::PORTA => 9,
            ClockGate5::PORTB => 10,
            ClockGate5::PORTC => 11,
            ClockGate5::PORTD => 12,
            ClockGate5::PORTE => 13,
        }
    }

    pub fn bit(self) -> (b: u32)
        ensures
            b == self.spec_bit(),
            b < 32,
    {
        match self {
            ClockGate5::LPTMR => 0,
            ClockGate5::TSI => 5,
            ClockGate5::PORTA => 9,
            ClockGate5::PORTB => 10,
            ClockGate5::PORTC => 11,
            ClockGate5::PORTD => 12,
            ClockGate5::PORTE => 13,
        }
    }
}

/// A peripheral clock gate in the sixth gating register.
#[derive(Clone, Copy, PartialEq, Eq, Structural, Debug)]
pub enum ClockGate6 {
    FTF,
    DMAMUX,
    FLEXCAN0,
    RNGA,
    SPI0,
    SPI1,
    I2S,
    CRC,
    USBDCD,
    PDB,
    PIT,
    FTM0,
    FTM1,
    FTM2,
    ADC0,
    RTC,
    DAC0,
}

impl ClockGate6 {
    /// Bit position of this gate in its register.
    pub open spec fn spec_bit(self) -> u32 {
        match self {
            ClockGate6::FTF => 0,
            ClockGate6::DMAMUX => 1,
            ClockGate6::FLEXCAN0 => 4,
            ClockGate6::RNGA => 9,
            ClockGate6::SPI0 => 12,
            ClockGate6::SPI1 => 13,
            ClockGate6::I2S => 15,
            ClockGate6::CRC => 18,
            ClockGate6::USBDCD => 21,
            ClockGate6::PDB => 22,
            ClockGate6::PIT => 23,
            ClockGate6::FTM0 => 24,
            ClockGate6::FTM1 => 25,
            ClockGate6::FTM2 => 26,
            ClockGate6::ADC0 => 27,
            ClockGate6::RTC => 29,
            ClockGate6::DAC0 => 31,
        }
    }

    pub fn bit(self) -> (b: u32)
        ensures
            b == self.spec_bit(),
            b < 32,
    {
        match self {
            ClockGate6::FTF => 0,
            ClockGate6::DMAMUX => 1,
            ClockGate6::FLEXCAN0 => 4,
            ClockGate6::RNGA => 9,
            ClockGate6::SPI0 => 12,
            ClockGate6::SPI1 => 13,
            ClockGate6::I2S => 15,
            ClockGate6::CRC => 18,
            ClockGate6::USBDCD => 21,
            ClockGate6::PDB => 22,
            ClockGate6::PIT => 23,
            ClockGate6::FTM0 => 24,
            ClockGate6::FTM1 => 25,
            ClockGate6::FTM2 => 26,
            ClockGate6::ADC0 => 27,
            ClockGate6::RTC => 29,
            ClockGate6::DAC0 => 31,
        }
    }
}

/// A peripheral clock gate in the seventh gating register.
#[derive(Clone, Copy, PartialEq, Eq, Structural, Debug)]
pub enum ClockGate7 {
    FLEXBUS,
    DMA,
    MPU,
    SDRAMC,
}

impl ClockGate7 {
    /// Bit position of this gate in its register.
    pub open spec fn spec_bit(self) -> u32 {
        match self {
            ClockGate7::FLEXBUS => 0,
            ClockGate7::DMA => 1,
            ClockGate7::MPU => 2,
            ClockGate7::SDRAMC => 3,
        }
    }

    pub fn bit(self) -> (b: u32)
        ensures
            b == self.spec_bit(),
            b < 32,
    {
        match self {
            ClockGate7::FLEXBUS => 0,
            ClockGate7::DMA => 1,
            ClockGate7::MPU => 2,
            ClockGate7::SDRAMC => 3,
        }
    }
}

/// One peripheral clock gate, addressed by its gating register.
#[derive(Clone, Copy, PartialEq, Eq, Structural, Debug)]
pub enum Clock {
    Clock1(ClockGate1),
    Clock2(ClockGate2),
    Clock3(ClockGate3),
    Clock4(ClockGate4),
    Clock5(ClockGate5),
    Clock6(ClockGate6),
    Clock7(ClockGate7),
}

/// The gating registers with one gate's bit set.
pub open spec fn spec_with_gate_set(sim: SimRegs, clock: Clock) -> SimRegs {
    match clock {
        Clock::Clock1(v) => SimRegs { scgc1: sim.scgc1 | (1u32 << v.spec_bit()), ..sim },
        Clock::Clock2(v) => SimRegs { scgc2: sim.scgc2 | (1u32 << v.spec_bit()), ..sim },
        Clock::Clock3(v) => SimRegs { scgc3: sim.scgc3 | (1u32 << v.spec_bit()), ..sim },
        Clock::Clock4(v) => SimRegs { scgc4: sim.scgc4 | (1u32 << v.spec_bit()), ..sim },
        Clock::Clock5(v) => SimRegs { scgc5: sim.scgc5 | (1u32 << v.spec_bit()), ..sim },
        Clock::Clock6(v) => SimRegs { scgc6: sim.scgc6 | (1u32 << v.spec_bit()), ..sim },
        Clock::Clock7(v) => SimRegs { scgc7: sim.scgc7 | (1u32 << v.spec_bit()), ..sim },
    }
}

/// The gating registers with one gate's bit cleared.
pub open spec fn spec_with_gate_cleared(sim: SimRegs, clock: Clock) -> SimRegs {
    match clock {
        Clock::Clock1(v) => SimRegs { scgc1: sim.scgc1 & !(1u32 << v.spec_bit()), ..sim },
        Clock::Clock2(v) => SimRegs { scgc2: sim.scgc2 & !(1u32 << v.spec_bit()), ..sim },
        Clock::Clock3(v) => SimRegs { scgc3: sim.scgc3 & !(1u32 << v.spec_bit()), ..sim },
        Clock::Clock4(v) => SimRegs { scgc4: sim.scgc4 & !(1u32 << v.spec_bit()), ..sim },
        Clock::Clock5(v) => SimRegs { scgc5: sim.scgc5 & !(1u32 << v.spec_bit()), ..sim },
        Clock::Clock6(v) => SimRegs { scgc6: sim.scgc6 & !(1u32 << v.spec_bit()), ..sim },
        Clock::Clock7(v) => SimRegs { scgc7: sim.scgc7 & !(1u32 << v.spec_bit()), ..sim },
    }
}

/// Whether a gate's bit is set in the gating registers.
pub open spec fn spec_gate_enabled(sim: SimRegs, clock: Clock) -> bool {
    match clock {
        Clock::Clock1(v) => sim.scgc1 & (1u32 << v.spec_bit()) != 0,
        Clock::Clock2(v) => sim.scgc2 & (1u32 << v.spec_bit()) != 0,
        Clock::Clock3(v) => sim.scgc3 & (1u32 << v.spec_bit()) != 0,
        Clock::Clock4(v) => sim.scgc4 & (1u32 << v.spec_bit()) != 0,
        Clock::Clock5(v) => sim.scgc5 & (1u32 << v.spec_bit()) != 0,
        Clock::Clock6(v) => sim.scgc6 & (1u32 << v.spec_bit()) != 0,
        Clock::Clock7(v) => sim.scgc7 & (1u32 << v.spec_bit()) != 0,
    }
}

/// Open one peripheral clock gate.
pub fn enable_clock(p: &mut Peripherals, clock: Clock)
    ensures
        final(p).sim == spec_with_gate_set(old(p).sim, clock),
        final(p).mcg == old(p).mcg,
        final(p).smc == old(p).smc,
        final(p).osc == old(p).osc,
        final(p).journal == old(p).journal,
{
    match clock {
        Clock::Clock1(v) => p.sim.scgc1 = p.sim.scgc1 | (1u32 << v.bit()),
        Clock::Clock2(v) => p.sim.scgc2 = p.sim.scgc2 | (1u32 << v.bit()),
        Clock::Clock3(v) => p.sim.scgc3 = p.sim.scgc3 | (1u32 << v.bit()),
        Clock::Clock4(v) => p.sim.scgc4 = p.sim.scgc4 | (1u32 << v.bit()),
        Clock::Clock5(v) => p.sim.scgc5 = p.sim.scgc5 | (1u32 << v.bit()),
        Clock::Clock6(v) => p.sim.scgc6 = p.sim.scgc6 | (1u32 << v.bit()),
        Clock::Clock7(v) => p.sim.scgc7 = p.sim.scgc7 | (1u32 << v.bit()),
    }
}

/// Close one peripheral clock gate.
pub fn disable_clock(p: &mut Peripherals, clock: Clock)
    ensures
        final(p).sim == spec_with_gate_cleared(old(p).sim, clock),
        final(p).mcg == old(p).mcg,
        final(p).smc == old(p).smc,
        final(p).osc == old(p).osc,
        final(p).journal == old(p).journal,
{
    match clock {
        Clock::Clock1(v) => p.sim.scgc1 = p.sim.scgc1 & !(1u32 << v.bit()),
        Clock::Clock2(v) => p.sim.scgc2 = p.sim.scgc2 & !(1u32 << v.bit()),
        Clock::Clock3(v) => p.sim.scgc3 = p.sim.scgc3 & !(1u32 << v.bit()),
        Clock::Clock4(v) => p.sim.scgc4 = p.sim.scgc4 & !(1u32 << v.bit()),
        Clock::Clock5(v) => p.sim.scgc5 = p.sim.scgc5 & !(1u32 << v.bit()),
        Clock::Clock6(v) => p.sim.scgc6 = p.sim.scgc6 & !(1u32 << v.bit()),
        Clock::Clock7(v) => p.sim.scgc7 = p.sim.scgc7 & !(1u32 << v.bit()),
    }
}

/// Whether one peripheral clock gate is open.
pub fn is_clock_enabled(p: &Peripherals, clock: Clock) -> (r: bool)
    ensures
        r == spec_gate_enabled(p.sim, clock),
{
    match clock {
        Clock::Clock1(v) => p.sim.scgc1 & (1u32 << v.bit()) != 0,
        Clock::Clock2(v) => p.sim.scgc2 & (1u32 << v.bit()) != 0,
        Clock::Clock3(v) => p.sim.scgc3 & (1u32 << v.bit()) != 0,
        Clock::Clock4(v) => p.sim.scgc4 & (1u32 << v.bit()) != 0,
        Clock::Clock5(v) => p.sim.scgc5 & (1u32 << v.bit()) != 0,
        Clock::Clock6(v) => p.sim.scgc6 & (1u32 << v.bit()) != 0,
        Clock::Clock7(v) => p.sim.scgc7 & (1u32 << v.bit()) != 0,
    }
}

// Gates that may stay open during deep sleep, and the register values
// left once every closable gate is closed (their reset values).

/// DAC1 and DAC0 in the second gating register.
pub const DEEP_SLEEP_EXEMPT2: u32 = 0x3000;

/// VREF and CMP in the fourth gating register.
pub const DEEP_SLEEP_EXEMPT4: u32 = 0x0018_0000;

/// The port controllers, TSI and the low-power timer in the fifth
/// gating register.
pub const DEEP_SLEEP_EXEMPT5: u32 = 0x3e21;

/// RTC, DMAMUX and the flash controller in the sixth gating register.
pub const DEEP_SLEEP_EXEMPT6: u32 = 0x2000_0003;

/// The memory protection unit and the DMA engine in the seventh gating
/// register.
pub const DEEP_SLEEP_EXEMPT7: u32 = 0x6;

/// Whether every peripheral clock gate that would keep the chip out of
/// deep sleep is closed.  Gates without a wake role are exempt; the
/// remaining bits must sit at their reset values.
pub open spec fn spec_deep_sleep_ready(sim: SimRegs) -> bool {
    &&& sim.scgc1 == 0
    &&& sim.scgc2 & !DEEP_SLEEP_EXEMPT2 == 0
    &&& sim.scgc3 == 0
    &&& sim.scgc4 & !DEEP_SLEEP_EXEMPT4 == 0xf000_0030
    &&& sim.scgc5 & !DEEP_SLEEP_EXEMPT5 == 0x40182
    &&& sim.scgc6 & !DEEP_SLEEP_EXEMPT6 == 0x4000_0000
    &&& sim.scgc7 & !DEEP_SLEEP_EXEMPT7 == 0
}

/// Whether every peripheral clock gate that would keep the chip out of
/// deep sleep is closed.
pub fn deep_sleep_ready(p: &Peripherals) -> (r: bool)
    ensures
        r == spec_deep_sleep_ready(p.sim),
{
    let cg1 = p.sim.scgc1 == 0;
    let cg2 = p.sim.scgc2 & !DEEP_SLEEP_EXEMPT2 == 0;
    let cg3 = p.sim.scgc3 == 0;
    let cg4 = p.sim.scgc4 & !DEEP_SLEEP_EXEMPT4 == 0xf000_0030;
    let cg5 = p.sim.scgc5 & !DEEP_SLEEP_EXEMPT5 == 0x40182;
    let cg6 = p.sim.scgc6 & !DEEP_SLEEP_EXEMPT6 == 0x4000_0000;
    let cg7 = p.sim.scgc7 & !DEEP_SLEEP_EXEMPT7 == 0;

    cg1 && cg2 && cg3 && cg4 && cg5 && cg6 && cg7
}

/// Highest frequency the bus clock may run at.
pub const BUS_FREQ_MAX: u32 = 60_000_000;

/// Highest frequency the flash clock may run at.
pub const FLASH_FREQ_MAX: u32 = 28_000_000;

/// Program the clock divider register.  Each argument is the divider
/// itself; the register holds each as value minus one.  The FlexBus
/// divider follows the bus divider.
pub fn set_dividers(p: &mut Peripherals, core: u32, bus: u32, flash: u32)
    requires
        1 <= core <= 16,
        1 <= bus <= 16,
        1 <= flash <= 16,
    ensures
        final(p).sim == (SimRegs {
            outdiv1: (core - 1) as u32,
            outdiv2: (bus - 1) as u32,
            outdiv3: (bus - 1) as u32,
            outdiv4: (flash - 1) as u32,
            ..old(p).sim
        }),
        final(p).mcg == old(p).mcg,
        final(p).smc == old(p).smc,
        final(p).osc == old(p).osc,
        final(p).journal@ == old(p).journal@.push(Event::DividersSet(core, bus, flash)),
{
    p.sim.outdiv1 = core - 1;
    p.sim.outdiv2 = bus - 1;
    p.sim.outdiv3 = bus - 1;
    p.sim.outdiv4 = flash - 1;

    p.record(Event::DividersSet(core, bus, flash));
}

/// The smallest divider that brings `freq` to or below `limit`:
/// one more than the number of whole `(limit + 1)`-sized blocks in
/// `freq`.
pub open spec fn spec_min_divider(freq: u32, limit: u32) -> int {
    freq as int / (limit + 1) + 1
}

/// The smallest divider `d >= 1` with `freq / d <= limit`.
fn min_divider(freq: u32, limit: u32) -> (d: u32)
    requires
        1 <= limit <= 1_000_000_000,
    ensures
        d == spec_min_divider(freq, limit),
        1 <= d,
        freq / d <= limit,
        d > 1 ==> freq as int / (d - 1) > limit,
{
    let mut d: u32 = 1;
    while freq / d > limit
        invariant
            1 <= limit <= 1_000_000_000,
            1 <= d,
            d <= spec_min_divider(freq, limit),
            d > 1 ==> freq as int / (d - 1) > limit,
        decreases spec_min_divider(freq, limit) - d,
    {
        proof {
            // freq / d > limit means freq >= d * (limit + 1), so the
            // final divider is still ahead of d.
            lemma_fundamental_div_mod(freq as int, d as int);
            assert(freq as int >= d * (limit + 1)) by (nonlinear_arith)
                requires
                    freq as int == d * (freq as int / d as int) + freq as int % d as int,
                    freq as int % d as int >= 0,
                    freq as int / d as int >= limit + 1,
                    d >= 1,
            ;
            assert(freq as int / (limit + 1) >= d) by {
                lemma_div_is_ordered(d * (limit + 1), freq as int, limit + 1);
                lemma_fundamental_div_mod_converse(d * (limit + 1), limit + 1, d as int, 0);
            }
            // The divider stays far below u32::MAX: it never exceeds
            // freq / (limit + 1).
            lemma_div_is_ordered(freq as int, u32::MAX as int, limit + 1);
            lemma_div_is_ordered_by_denominator(u32::MAX as int, 2, limit + 1);
        }
        d = d + 1;
    }
    proof {
        if d == 1 {
            // freq itself is within the limit, so no whole
            // (limit + 1)-sized block fits in it.
            lemma_basic_div(freq as int, limit + 1);
        }
        if d > 1 {
            // limit < freq / (d - 1) pins freq between two multiples of
            // limit + 1, so d - 1 is exactly freq / (limit + 1).
            lemma_fundamental_div_mod(freq as int, (d - 1) as int);
            assert(freq as int >= (d - 1) * (limit + 1)) by (nonlinear_arith)
                requires
                    freq as int == (d - 1) * (freq as int / (d - 1)) + freq as int % (d - 1),
                    freq as int % (d - 1) >= 0,
                    freq as int / (d - 1) >= limit + 1,
                    d >= 2,
            ;
            lemma_fundamental_div_mod(freq as int, d as int);
            assert((freq as int) < d * (limit + 1)) by (nonlinear_arith)
                requires
                    freq as int == d * ((freq as int) / (d as int)) + (freq as int) % (d as int),
                    ((freq as int) % (d as int)) < d,
                    ((freq as int) / (d as int)) <= limit,
                    d >= 1,
            ;
            assert((d - 1) * (limit + 1) + (limit + 1) == d * (limit + 1)) by (nonlinear_arith);
            lemma_fundamental_div_mod_converse(
                freq as int,
                limit + 1,
                (d - 1) as int,
                freq as int - (d - 1) * (limit + 1),
            );
        }
    }
    d
}

/// The bus divider the policy chooses for a core frequency.
pub open spec fn spec_bus_divider(freq: u32) -> int {
    spec_min_divider(freq, BUS_FREQ_MAX)
}

/// The flash divider the policy chooses for a core frequency.
pub open spec fn spec_flash_divider(freq: u32) -> int {
    spec_min_divider(freq, FLASH_FREQ_MAX)
}

/// The divider policy: the smallest integer dividers that keep the bus
/// at or below 60 MHz and the flash at or below 28 MHz for the given
/// core frequency.  Pure; the caller programs the result.
pub fn dividers_for(core_freq: u32) -> (divs: (u32, u32))
    ensures
        divs.0 == spec_bus_divider(core_freq),
        divs.1 == spec_flash_divider(core_freq),
        1 <= divs.0,
        1 <= divs.1,
        core_freq / divs.0 <= BUS_FREQ_MAX,
        core_freq / divs.1 <= FLASH_FREQ_MAX,
        divs.0 > 1 ==> core_freq as int / (divs.0 - 1) > BUS_FREQ_MAX,
        divs.1 > 1 ==> core_freq as int / (divs.1 - 1) > FLASH_FREQ_MAX,
{
    let bus_div = min_divider(core_freq, BUS_FREQ_MAX);
    let flash_div = min_divider(core_freq, FLASH_FREQ_MAX);
    (bus_div, flash_div)
}

/// The divider policy is monotonic: a higher core frequency never gets a
/// smaller bus or flash divider.
pub proof fn lemma_dividers_monotonic(f1: u32, f2: u32)
    requires
        f1 <= f2,
    ensures
        spec_bus_divider(f1) <= spec_bus_divider(f2),
        spec_flash_divider(f1) <= spec_flash_divider(f2),
{
    lemma_div_is_ordered(f1 as int, f2 as int, BUS_FREQ_MAX + 1);
    lemma_div_is_ordered(f1 as int, f2 as int, FLASH_FREQ_MAX + 1);
}

} // verus!
