//! The ways in which an acquisition can fail.

use vstd::prelude::*;

verus! {

/// Why an acquisition produced no temperature.
#[derive(Debug, Clone, Copy, PartialEq, Eq)]
pub enum Error {
    /// The exchange over the bus did not complete.
    BusTransferFailure,
    /// The chip reports that no thermocouple is attached to its inputs.
    ThermocoupleDisconnected,
    /// The identity bit of the frame is set: what answered is not a chip of
    /// this family, or the wiring is wrong.
    ProtocolMismatch,
}

} // verus!
