//! A decoded frame, and what it means.

use crate::error::Error;
use crate::frame::{
    assemble, compose_frame, frame_device_id, frame_of, frame_open_circuit, frame_ticks,
    lemma_composed_frame_carries_its_fields, MAX_TICKS,
};
use crate::temperature::Temperature;
use vstd::prelude::*;

verus! {

/// The fields of one frame: the temperature and the two diagnostic bits.
#[derive(Debug, Clone, Copy, PartialEq, Eq)]
pub struct Reading {
    /// The temperature magnitude, at most [`MAX_TICKS`].
    pub temperature_ticks: u16,
    /// Set when no thermocouple is attached.
    pub open_circuit: bool,
    /// The identity bit, 0 for this chip family.
    pub device_id: u8,
}

impl Reading {
    /// A reading that a frame can give: twelve bits of temperature and one bit
    /// of identity.
    pub open spec fn wf(&self) -> bool {
        &&& self.temperature_ticks <= MAX_TICKS
        &&& self.device_id <= 1
    }

    /// The reading that a frame carries.
    pub open spec fn of_frame(frame: u16) -> Reading {
        Reading {
            temperature_ticks: frame_ticks(frame) as u16,
            open_circuit: frame_open_circuit(frame),
            device_id: frame_device_id(frame) as u8,
        }
    }

    /// What a reading means. A reported open circuit wins over everything
    /// else; a foreign identity bit wins over the temperature.
    pub open spec fn outcome(&self) -> Result<Temperature, Error> {
        if self.open_circuit {
            Err(Error::ThermocoupleDisconnected)
        } else if self.device_id != 0 {
            Err(Error::ProtocolMismatch)
        } else {
            Ok(Temperature { ticks: self.temperature_ticks })
        }
    }

    /// Splits a frame into its fields. Bits 15 and 0 are dropped.
    pub fn from_frame(frame: u16) -> (reading: Reading)
        ensures
            reading == Reading::of_frame(frame),
            reading.wf(),
    {
        assert((frame >> 3) & 0x0fff == (frame / 8) % 4096) by (bit_vector);
        assert(((frame & 0x0004) != 0) == ((frame / 4) % 2 == 1)) by (bit_vector);
        assert((frame & 0x0002) >> 1 == (frame / 2) % 2) by (bit_vector);
        Reading {
            temperature_ticks: (frame >> 3) & 0x0fff,
            open_circuit: (frame & 0x0004) != 0,
            device_id: ((frame & 0x0002) >> 1) as u8,
        }
    }

    /// Decodes the two bytes of an exchange, the first byte in the high order.
    pub fn from_bytes(bytes: [u8; 2]) -> (reading: Reading)
        ensures
            reading == Reading::of_frame(frame_of(bytes[0], bytes[1])),
            reading.wf(),
    {
        Reading::from_frame(assemble(bytes))
    }

    /// Classifies the reading into a temperature or the error that it reports.
    pub fn temperature(&self) -> (result: Result<Temperature, Error>)
        ensures
            result == self.outcome(),
            self.open_circuit ==> result == Err::<Temperature, Error>(
                Error::ThermocoupleDisconnected,
            ),
            !self.open_circuit && self.device_id != 0 ==> result == Err::<Temperature, Error>(
                Error::ProtocolMismatch,
            ),
            !self.open_circuit && self.device_id == 0 ==> result == Ok::<Temperature, Error>(
                Temperature { ticks: self.temperature_ticks },
            ),
    {
        if self.open_circuit {
            Err(Error::ThermocoupleDisconnected)
        } else if self.device_id != 0 {
            Err(Error::ProtocolMismatch)
        } else {
            Ok(Temperature { ticks: self.temperature_ticks })
        }
    }
}

/// What a frame decodes to: the meaning of the reading that it carries.
pub open spec fn decode_frame(frame: u16) -> Result<Temperature, Error> {
    Reading::of_frame(frame).outcome()
}

/// A frame with both diagnostic bits clear decodes to the temperature in its
/// bits 14 to 3, a quarter of a degree for each tick, whatever its spare bits
/// hold.
pub proof fn lemma_clean_frame_decodes_to_its_ticks(ticks: u16, spare_high: bool, spare_low: bool)
    requires
        ticks <= MAX_TICKS,
    ensures
        0 <= compose_frame(ticks as int, false, 0, spare_high, spare_low) <= u16::MAX,
        decode_frame(compose_frame(ticks as int, false, 0, spare_high, spare_low) as u16) == Ok::<
            Temperature,
            Error,
        >(Temperature { ticks }),
        4 * (Temperature { ticks }).spec_millidegrees() == 1000 * ticks,
{
    lemma_composed_frame_carries_its_fields(ticks as int, false, 0, spare_high, spare_low);
}

/// A frame with the open-circuit bit set decodes to
/// [`Error::ThermocoupleDisconnected`], whatever the identity bit and the
/// rest of the frame hold.
pub proof fn lemma_open_circuit_wins(frame: u16)
    requires
        frame_open_circuit(frame),
    ensures
        decode_frame(frame) == Err::<Temperature, Error>(Error::ThermocoupleDisconnected),
{
}

/// A frame with the open-circuit bit clear and the identity bit set decodes to
/// [`Error::ProtocolMismatch`].
pub proof fn lemma_foreign_identity_is_a_mismatch(frame: u16)
    requires
        !frame_open_circuit(frame),
        frame_device_id(frame) != 0,
    ensures
        decode_frame(frame) == Err::<Temperature, Error>(Error::ProtocolMismatch),
{
}

/// A frame decodes to a temperature exactly when both diagnostic bits are
/// clear, and the temperature is then a whole number of quarter degrees
/// between 0 °C and 1023.75 °C.
pub proof fn lemma_decoded_temperature_in_range(frame: u16)
    ensures
        decode_frame(frame) is Ok <==> !frame_open_circuit(frame) && frame_device_id(frame) == 0,
        decode_frame(frame) matches Ok(t) ==> {
            &&& t.ticks == frame_ticks(frame)
            &&& t.ticks <= MAX_TICKS
            &&& 0 <= t.spec_millidegrees() <= 1_023_750
            &&& t.spec_millidegrees() % 250 == 0
        },
{
}

} // verus!
