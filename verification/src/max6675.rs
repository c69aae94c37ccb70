//! The reader: one acquisition per call, no state kept between calls.
//!
//! An acquisition selects the chip, exchanges two bytes with it, releases it,
//! and turns what the bus answered into a temperature or an error. What the
//! bus answers is up to the hardware; what the reader makes of each answer is
//! stated by [`acquisition`] and is the same on every call.

use crate::bus::{ByteExchange, DigitalOutput};
use crate::frame::{frame_of, MAX_TICKS};
use crate::reading::{decode_frame, Reading};
use crate::temperature::Temperature;
use vstd::prelude::*;

pub use crate::error::Error;

verus! {

/// A MAX6675 on a bus, together with the line that selects it. The reader
/// owns both for as long as it lives.
pub struct Max6675<SPI, CS> {
    /// The bus that the chip answers on.
    pub spi: SPI,
    /// The select line of the chip, active low.
    pub cs: CS,
}

/// What a response of the bus decodes to: the fields of the frame that the two
/// bytes form, or the failure of the bus, untouched.
pub open spec fn spec_decode<E>(response: Result<[u8; 2], E>) -> Result<Reading, E> {
    match response {
        Ok(bytes) => Ok(Reading::of_frame(frame_of(bytes[0], bytes[1]))),
        Err(e) => Err(e),
    }
}

/// What a decoded response means. Every failure of the bus is the same
/// [`Error::BusTransferFailure`], whatever the bus said of it.
pub open spec fn spec_classify<E>(decoded: Result<Reading, E>) -> Result<Temperature, Error> {
    match decoded {
        Ok(reading) => reading.outcome(),
        Err(_) => Err(Error::BusTransferFailure),
    }
}

/// The result of an acquisition, as a function of what the bus answered: what
/// the frame decodes to when the exchange completed, and
/// [`Error::BusTransferFailure`] when it did not.
pub open spec fn acquisition<E>(response: Result<[u8; 2], E>) -> Result<Temperature, Error> {
    match response {
        Ok(bytes) => decode_frame(frame_of(bytes[0], bytes[1])),
        Err(_) => Err(Error::BusTransferFailure),
    }
}

/// Decodes what the bus answered: the two bytes into a reading, a failure
/// into itself.
pub fn decode<E>(response: Result<[u8; 2], E>) -> (decoded: Result<Reading, E>)
    ensures
        decoded == spec_decode(response),
        response is Ok <==> decoded is Ok,
        decoded matches Ok(reading) ==> reading.wf(),
{
    match response {
        Ok(bytes) => Ok(Reading::from_bytes(bytes)),
        Err(e) => Err(e),
    }
}

/// Turns a decoded response into the result of the acquisition.
pub fn classify<E>(decoded: Result<Reading, E>) -> (result: Result<Temperature, Error>)
    ensures
        result == spec_classify(decoded),
        decoded is Err ==> result == Err::<Temperature, Error>(Error::BusTransferFailure),
        result is Ok ==> decoded is Ok,
{
    match decoded {
        Ok(reading) => reading.temperature(),
        Err(_) => Err(Error::BusTransferFailure),
    }
}

/// Decoding a response and classifying what was decoded, one after the other,
/// give the result of the acquisition.
pub proof fn lemma_acquisition_is_decode_then_classify<E>(response: Result<[u8; 2], E>)
    ensures
        spec_classify(spec_decode(response)) == acquisition(response),
{
}

/// An exchange that fails gives [`Error::BusTransferFailure`] and never a
/// temperature, whatever the bus said of the failure.
pub proof fn lemma_failed_exchange_is_a_bus_failure<E>(response: Result<[u8; 2], E>)
    requires
        response is Err,
    ensures
        acquisition(response) == Err::<Temperature, Error>(Error::BusTransferFailure),
{
}

/// Acquisitions keep nothing from one call to the next: when the bus answers
/// two of them alike, with the same two bytes or with a failure both times,
/// their results are the same.
pub proof fn lemma_same_response_same_result<E>(
    first: Result<[u8; 2], E>,
    second: Result<[u8; 2], E>,
)
    requires
        first is Ok <==> second is Ok,
        first is Ok ==> first->Ok_0@ == second->Ok_0@,
    ensures
        acquisition(first) == acquisition(second),
{
}

impl<SPI: ByteExchange, CS: DigitalOutput> Max6675<SPI, CS> {
    /// Makes a reader of a bus and a select line, both already configured.
    pub fn new(spi: SPI, cs: CS) -> (reader: Self)
        ensures
            reader.spi == spi,
            reader.cs == cs,
    {
        Max6675 { spi, cs }
    }

    /// Performs one acquisition and returns the temperature, or the reason
    /// why there is none.
    ///
    /// Whatever the hardware does, the result is what [`acquisition`] makes of
    /// some response of the bus, so a temperature is at most [`MAX_TICKS`].
    pub fn get_temperature(&mut self) -> (result: Result<Temperature, Error>)
        ensures
            exists|response: Result<[u8; 2], SPI::Error>| result == acquisition(response),
            result matches Ok(t) ==> t.ticks <= MAX_TICKS,
    {
        let decoded = self.read_spi();
        proof {
            let response = choose|response: Result<[u8; 2], SPI::Error>|
                decoded == spec_decode(response);
            lemma_acquisition_is_decode_then_classify(response);
        }
        classify(decoded)
    }

    /// Reads one frame from the chip and decodes it.
    ///
    /// The select line is driven low before the exchange and high after it,
    /// also when the exchange fails. What the select line reports is dropped:
    /// the chip has no error for it.
    pub fn read_spi(&mut self) -> (decoded: Result<Reading, SPI::Error>)
        ensures
            exists|response: Result<[u8; 2], SPI::Error>| decoded == spec_decode(response),
            decoded matches Ok(reading) ==> reading.wf(),
    {
        let _ = self.cs.set_low();
        let mut buffer: [u8; 2] = [0u8; 2];
        let exchanged = self.spi.exchange(&mut buffer);
        let _ = self.cs.set_high();
        let response = match exchanged {
            Ok(()) => Ok(buffer),
            Err(e) => Err(e),
        };
        decode(response)
    }
}

} // verus!
