//! A temperature as the chip measures it.

use vstd::prelude::*;

verus! {

/// A temperature in ticks. One tick is a quarter of a degree Celsius, the
/// resolution of the chip, so the value is exact.
#[derive(Debug, Clone, Copy, PartialEq, Eq)]
pub struct Temperature {
    /// The number of quarter degrees above 0 °C.
    pub ticks: u16,
}

impl Temperature {
    /// The temperature in thousandths of a degree Celsius.
    pub open spec fn spec_millidegrees(&self) -> int {
        250 * (self.ticks as int)
    }

    /// The temperature in thousandths of a degree Celsius: 250 for each tick.
    pub fn millidegrees(&self) -> (m: u32)
        ensures
            m == self.spec_millidegrees(),
    {
        let ticks: u32 = self.ticks as u32;
        250 * ticks
    }
}

} // verus!
