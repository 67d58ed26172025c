//! Clock-tree reconfiguration engine for the MK66 (Teensy 3.6) microcontroller.
//!
//! The multipurpose clock generator of this chip moves between eight named
//! hardware configurations (FLL or PLL engaged or bypassed, internal or
//! external reference, optional low-power bypass).  Not every configuration is
//! reachable from every other in one step: the legality graph is encoded in
//! [`state`], and the register sequencing for each edge in [`mcg`].  Bus and
//! flash dividers ([`sim`]), the run-mode power controller ([`smc`]) and the
//! external oscillator ([`osc`]) are driven in the order that keeps the core,
//! bus and flash inside their documented frequency ceilings at every moment.
//!
//! The hardware registers are modelled as an explicit context value,
//! [`regs::Peripherals`], owned by the [`mcg::SystemClockManager`]; every
//! transition's postcondition proves that the state decoded back from the
//! registers is the state the driver believes it reached.

pub mod adc;
pub mod clock;
pub mod clock_pm;
pub mod components;
pub mod dma;
pub mod flash;
pub mod lptmr;
pub mod mcg;
pub mod osc;
pub mod regs;
pub mod sim;
pub mod smc;
pub mod state;
