//! Direct memory access support types: the transfer control descriptor
//! configuration and the client notified when a transfer completes.

use vstd::prelude::*;

verus! {

/// One transfer control descriptor configuration: a 16-bit-wide
/// gather from a fixed peripheral address into a walking destination,
/// `nruns` runs of `nbytes` each.
#[derive(Clone, Copy, PartialEq, Eq, Structural, Debug)]
pub struct TransferConfig {
    pub saddr: u32,
    pub soff: u16,
    pub ssize: u16,
    pub dsize: u16,
    pub nbytes: u32,
    pub slast: u32,
    pub daddr: u32,
    pub doff: u16,
    pub citer: u16,
    pub dlastsga: u32,
    pub biter: u16,
}

impl TransferConfig {
    pub fn new(saddr: u32, daddr: u32, nbytes: u16, nruns: u16) -> (c: TransferConfig)
        ensures
            c == (TransferConfig {
                saddr,
                soff: 0u16,
                ssize: 1u16,
                dsize: 1u16,
                nbytes: nbytes as u32,
                slast: 0u32,
                daddr,
                doff: nbytes,
                citer: nruns,
                dlastsga: 0u32,
                biter: nruns,
            }),
    {
        TransferConfig {
            saddr,
            soff: 0,
            ssize: 1,  // 16-bit
            dsize: 1,  // 16-bit
            nbytes: nbytes as u32,
            slast: 0,
            daddr,
            doff: nbytes,
            citer: nruns,
            dlastsga: 0,
            biter: nruns,
        }
    }
}

/// The peripheral request sources a channel can be assigned to.
/// `*_RX` means transfer data from peripheral to memory, `*_TX` means
/// transfer data from memory to peripheral.
#[allow(non_camel_case_types)]
#[derive(Clone, Copy, PartialEq, Eq, Structural, Debug)]
pub enum DMAPeripheral {
    TSI0,
    UART0_RX,
    UART0_TX,
    UART1_RX,
    UART1_TX,
    UART2_RX,
    UART2_TX,
    UART3_RX,
    UART3_TX,
    UART4,
    I2S0_RX,
    I2S0_TX,
    SPI0_RX,
    SPI0_TX,
    SPI1_RX,
    SPI1_tx,
    I2C0,
    I2C1,
    FTM0_CH0,
    FTM0_CH1,
    FTM0_CH2,
    FTM0_CH3,
    FTM0_CH4,
    FTM0_CH5,
    FTM0_CH6,
    FTM0_CH7,
    FTM1_TPM1_CH0,
    FTM1_TPM1_CH1,
    FTM2_TPM2_CH0,
    FTM2_TPM2_CH1,
    FTM3_CH0,
    FTM3_CH1,
    FTM3_CH2,
    FTM3_CH3,
    FTM3_CH4,
    FTM3_CH5,
    FTM3_CH6_SPI2_RX,
    FTM3_CH7_SPI2_TX,
    ADC0,
    ADC1,
    CMP0,
    CMP1,
    CMP2_CMP3,
    DAC0,
    DAC1,
    CMT,
    PDB,
}

impl DMAPeripheral {
    /// The request source's number in the channel multiplexer.
    pub open spec fn spec_request_number(self) -> u8 {
        match self {
            DMAPeripheral::TSI0 => 1,
            DMAPeripheral::UART0_RX => 2,
            DMAPeripheral::UART0_TX => 3,
            DMAPeripheral::UART1_RX => 4,
            DMAPeripheral::UART1_TX => 5,
            DMAPeripheral::UART2_RX => 6,
            DMAPeripheral::UART2_TX => 7,
            DMAPeripheral::UART3_RX => 8,
            DMAPeripheral::UART3_TX => 9,
            DMAPeripheral::UART4 => 10,
            DMAPeripheral::I2S0_RX => 12,
            DMAPeripheral::I2S0_TX => 13,
            DMAPeripheral::SPI0_RX => 14,
            DMAPeripheral::SPI0_TX => 15,
            DMAPeripheral::SPI1_RX => 16,
            DMAPeripheral::SPI1_tx => 17,
            DMAPeripheral::I2C0 => 18,
            DMAPeripheral::I2C1 => 19,
            DMAPeripheral::FTM0_CH0 => 20,
            DMAPeripheral::FTM0_CH1 => 21,
            DMAPeripheral::FTM0_CH2 => 22,
            DMAPeripheral::FTM0_CH3 => 23,
            DMAPeripheral::FTM0_CH4 => 24,
            DMAPeripheral::FTM0_CH5 => 25,
            DMAPeripheral::FTM0_CH6 => 26,
            DMAPeripheral::FTM0_CH7 => 27,
            DMAPeripheral::FTM1_TPM1_CH0 => 28,
            DMAPeripheral::FTM1_TPM1_CH1 => 29,
            DMAPeripheral::FTM2_TPM2_CH0 => 30,
            DMAPeripheral::FTM2_TPM2_CH1 => 31,
            DMAPeripheral::FTM3_CH0 => 32,
            DMAPeripheral::FTM3_CH1 => 33,
            DMAPeripheral::FTM3_CH2 => 34,
            DMAPeripheral::FTM3_CH3 => 35,
            DMAPeripheral::FTM3_CH4 => 36,
            DMAPeripheral::FTM3_CH5 => 37,
            DMAPeripheral::FTM3_CH6_SPI2_RX => 38,
            DMAPeripheral::FTM3_CH7_SPI2_TX => 39,
            DMAPeripheral::ADC0 => 40,
            DMAPeripheral::ADC1 => 41,
            DMAPeripheral::CMP0 => 42,
            DMAPeripheral::CMP1 => 43,
            DMAPeripheral::CMP2_CMP3 => 44,
            DMAPeripheral::DAC0 => 45,
            DMAPeripheral::DAC1 => 46,
            DMAPeripheral::CMT => 47,
            DMAPeripheral::PDB => 48,
        }
    }

    /// The request source's number in the channel multiplexer.
    pub fn request_number(self) -> (n: u8)
        ensures
            n == self.spec_request_number(),
    {
        match self {
            DMAPeripheral::TSI0 => 1,
            DMAPeripheral::UART0_RX => 2,
            DMAPeripheral::UART0_TX => 3,
            DMAPeripheral::UART1_RX => 4,
            DMAPeripheral::UART1_TX => 5,
            DMAPeripheral::UART2_RX => 6,
            DMAPeripheral::UART2_TX => 7,
            DMAPeripheral::UART3_RX => 8,
            DMAPeripheral::UART3_TX => 9,
            DMAPeripheral::UART4 => 10,
            DMAPeripheral::I2S0_RX => 12,
            DMAPeripheral::I2S0_TX => 13,
            DMAPeripheral::SPI0_RX => 14,
            DMAPeripheral::SPI0_TX => 15,
            DMAPeripheral::SPI1_RX => 16,
            DMAPeripheral::SPI1_tx => 17,
            DMAPeripheral::I2C0 => 18,
            DMAPeripheral::I2C1 => 19,
            DMAPeripheral::FTM0_CH0 => 20,
            DMAPeripheral::FTM0_CH1 => 21,
            DMAPeripheral::FTM0_CH2 => 22,
            DMAPeripheral::FTM0_CH3 => 23,
            DMAPeripheral::FTM0_CH4 => 24,
            DMAPeripheral::FTM0_CH5 => 25,
            DMAPeripheral::FTM0_CH6 => 26,
            DMAPeripheral::FTM0_CH7 => 27,
            DMAPeripheral::FTM1_TPM1_CH0 => 28,
            DMAPeripheral::FTM1_TPM1_CH1 => 29,
            DMAPeripheral::FTM2_TPM2_CH0 => 30,
            DMAPeripheral::FTM2_TPM2_CH1 => 31,
            DMAPeripheral::FTM3_CH0 => 32,
            DMAPeripheral::FTM3_CH1 => 33,
            DMAPeripheral::FTM3_CH2 => 34,
            DMAPeripheral::FTM3_CH3 => 35,
            DMAPeripheral::FTM3_CH4 => 36,
            DMAPeripheral::FTM3_CH5 => 37,
            DMAPeripheral::FTM3_CH6_SPI2_RX => 38,
            DMAPeripheral::FTM3_CH7_SPI2_TX => 39,
            DMAPeripheral::ADC0 => 40,
            DMAPeripheral::ADC1 => 41,
            DMAPeripheral::CMP0 => 42,
            DMAPeripheral::CMP1 => 43,
            DMAPeripheral::CMP2_CMP3 => 44,
            DMAPeripheral::DAC0 => 45,
            DMAPeripheral::DAC1 => 46,
            DMAPeripheral::CMT => 47,
            DMAPeripheral::PDB => 48,
        }
    }
}

/// Notified when a transfer on the channel it registered for is done.
pub trait DMAClient {
    fn transfer_done(&self);
}

} // verus!
