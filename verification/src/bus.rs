//! The two hardware capabilities that the driver works through.
//!
//! Both are left to the board: the driver is handed something that can
//! exchange bytes with the chip and something that can drive its select line.
//! Neither trait promises anything about what its methods do or return, so
//! the driver is verified for every behaviour of the hardware behind them.

use vstd::prelude::*;

verus! {

/// A synchronous serial bus on which the chip sits.
pub trait ByteExchange {
    /// What the bus reports when an exchange does not complete.
    type Error;

    /// Clocks two bytes in from the device and stores them in `buffer`, the
    /// byte received first at index 0. Blocks until the exchange is over.
    fn exchange(&mut self, buffer: &mut [u8; 2]) -> Result<(), Self::Error>;
}

/// A digital output, such as the select line of the chip.
pub trait DigitalOutput {
    /// What the output reports when it cannot be driven.
    type Error;

    /// Drives the output low.
    fn set_low(&mut self) -> Result<(), Self::Error>;

    /// Drives the output high.
    fn set_high(&mut self) -> Result<(), Self::Error>;
}

} // verus!
