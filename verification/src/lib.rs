//! A driver for the MAX6675 cold-junction-compensated thermocouple-to-digital
//! converter.
//!
//! The chip answers every read with one 16-bit frame. This crate states the
//! layout of that frame ([`frame`]), decodes it into a reading and classifies
//! the reading into a temperature or a diagnostic error ([`reading`]), and
//! performs the acquisition itself over a bus and a select line that the board
//! supplies ([`max6675`], [`bus`]).
//!
//! Temperatures are kept in ticks of a quarter degree Celsius, as the chip
//! reports them, so every value is exact.

pub mod bus;
pub mod error;
pub mod frame;
pub mod max6675;
pub mod reading;
pub mod temperature;

pub use bus::{ByteExchange, DigitalOutput};
pub use error::Error;
pub use max6675::Max6675;
pub use reading::Reading;
pub use temperature::Temperature;
