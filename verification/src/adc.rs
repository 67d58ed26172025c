//! Analog-to-digital converter support types.

use vstd::prelude::*;

verus! {

/// One ADC input: which of the two converters it belongs to and its
/// channel number on that converter.
#[derive(Clone, Copy, PartialEq, Eq, Structural, Debug)]
pub struct AdcChannel {
    pub adc_num: u8,
    pub chan_num: u32,
}

impl AdcChannel {
    /// Create a new ADC channel.
    pub fn new(adc_num: u8, channel: u32) -> (c: AdcChannel)
        ensures
            c == (AdcChannel { adc_num, chan_num: channel }),
    {
        AdcChannel { adc_num, chan_num: channel }
    }
}

} // verus!
