//! The wire format and the classification, on plain values.

use max6675::frame::{assemble, MAX_TICKS};
use max6675::max6675::{classify, decode as decode_response};
use max6675::reading::Reading;
use max6675::temperature::Temperature;
use max6675::Error;

fn decode(bytes: [u8; 2]) -> Result<Temperature, Error> {
    classify(decode_response(Ok::<[u8; 2], ()>(bytes)))
}

#[test]
fn assemble_is_big_endian() {
    assert_eq!(assemble([0x12, 0x34]), 0x1234);
    assert_eq!(assemble([0x00, 0x01]), 1);
    assert_eq!(assemble([0x01, 0x00]), 256);
    assert_eq!(assemble([0xff, 0xff]), 0xffff);
    assert_eq!(assemble([0x00, 0x00]), 0);
}

#[test]
fn from_frame_splits_the_fields() {
    assert_eq!(
        Reading::from_frame(0x7ff8),
        Reading { temperature_ticks: 4095, open_circuit: false, device_id: 0 }
    );
    assert_eq!(
        Reading::from_frame(0x0004),
        Reading { temperature_ticks: 0, open_circuit: true, device_id: 0 }
    );
    assert_eq!(
        Reading::from_frame(0x0002),
        Reading { temperature_ticks: 0, open_circuit: false, device_id: 1 }
    );
    assert_eq!(
        Reading::from_frame(0x0008),
        Reading { temperature_ticks: 1, open_circuit: false, device_id: 0 }
    );
    assert_eq!(
        Reading::from_frame(0xffff),
        Reading { temperature_ticks: 4095, open_circuit: true, device_id: 1 }
    );
}

#[test]
fn from_bytes_takes_the_first_byte_as_high_order() {
    assert_eq!(Reading::from_bytes([0x03, 0x20]), Reading::from_frame(0x0320));
    assert_eq!(Reading::from_bytes([0x03, 0x20]).temperature_ticks, 100);
    assert_eq!(Reading::from_bytes([0x20, 0x03]).temperature_ticks, 0x2003 >> 3);
}

#[test]
fn spare_bits_carry_no_meaning() {
    assert_eq!(Reading::from_frame(0x8000), Reading::from_frame(0x0000));
    assert_eq!(Reading::from_frame(0x0001), Reading::from_frame(0x0000));
    assert_eq!(Reading::from_frame(0xfff9), Reading::from_frame(0x7ff8));
    assert_eq!(decode([0x80, 0x01]), Ok(Temperature { ticks: 0 }));
    assert_eq!(decode([0xff, 0xf9]), Ok(Temperature { ticks: 4095 }));
}

#[test]
fn every_reading_is_in_range() {
    for frame in 0..=u16::MAX {
        let reading = Reading::from_frame(frame);
        assert!(reading.temperature_ticks <= MAX_TICKS);
        assert!(reading.device_id <= 1);
        assert_eq!(reading.temperature_ticks, (frame >> 3) & 0x0fff);
        assert_eq!(reading.open_circuit, frame & 4 != 0);
        assert_eq!(reading.device_id, ((frame >> 1) & 1) as u8);
    }
}

#[test]
fn clean_frames_decode_to_their_ticks() {
    for ticks in 0..=MAX_TICKS {
        for spare in [0x0000u16, 0x0001, 0x8000, 0x8001] {
            let frame: u16 = (ticks << 3) | spare;
            let bytes = frame.to_be_bytes();
            let temperature = decode(bytes).unwrap();
            assert_eq!(temperature, Temperature { ticks });
            assert_eq!(temperature.ticks as f32 * 0.25, ticks as f32 * 0.25);
            assert_eq!(temperature.millidegrees(), 250 * ticks as u32);
        }
    }
}

#[test]
fn open_circuit_always_wins() {
    for frame in 0..=u16::MAX {
        if frame & 0x0004 != 0 {
            assert_eq!(decode(frame.to_be_bytes()), Err(Error::ThermocoupleDisconnected));
        }
    }
    assert_eq!(decode([0x00, 0x06]), Err(Error::ThermocoupleDisconnected));
    assert_eq!(decode([0x7f, 0xfe]), Err(Error::ThermocoupleDisconnected));
}

#[test]
fn identity_bit_alone_is_a_protocol_mismatch() {
    for frame in 0..=u16::MAX {
        if frame & 0x0004 == 0 && frame & 0x0002 != 0 {
            assert_eq!(decode(frame.to_be_bytes()), Err(Error::ProtocolMismatch));
        }
    }
    assert_eq!(decode([0x7f, 0xfa]), Err(Error::ProtocolMismatch));
}

#[test]
fn decoding_succeeds_exactly_on_clean_frames() {
    for frame in 0..=u16::MAX {
        let clean = frame & 0x0006 == 0;
        match decode(frame.to_be_bytes()) {
            Ok(temperature) => {
                assert!(clean);
                assert!(temperature.ticks <= MAX_TICKS);
                assert!(temperature.millidegrees() <= 1_023_750);
                assert_eq!(temperature.millidegrees() % 250, 0);
            }
            Err(error) => {
                assert!(!clean);
                assert_ne!(error, Error::BusTransferFailure);
            }
        }
    }
}

#[test]
fn reading_temperature_follows_precedence() {
    let open = Reading { temperature_ticks: 17, open_circuit: true, device_id: 1 };
    assert_eq!(open.temperature(), Err(Error::ThermocoupleDisconnected));
    let foreign = Reading { temperature_ticks: 17, open_circuit: false, device_id: 1 };
    assert_eq!(foreign.temperature(), Err(Error::ProtocolMismatch));
    let clean = Reading { temperature_ticks: 17, open_circuit: false, device_id: 0 };
    assert_eq!(clean.temperature(), Ok(Temperature { ticks: 17 }));
}

#[test]
fn decode_reads_the_bytes_of_a_completed_exchange() {
    assert_eq!(
        decode_response(Ok::<[u8; 2], u8>([0x03, 0x26])),
        Ok(Reading { temperature_ticks: 100, open_circuit: true, device_id: 1 })
    );
    assert_eq!(
        decode_response(Ok::<[u8; 2], u8>([0x7f, 0xf8])),
        Ok(Reading { temperature_ticks: 4095, open_circuit: false, device_id: 0 })
    );
}

#[test]
fn decode_keeps_the_failure_of_the_bus() {
    assert_eq!(decode_response(Err::<[u8; 2], u8>(42)), Err(42));
    assert_eq!(decode_response(Err::<[u8; 2], &str>("overrun")), Err("overrun"));
}

#[test]
fn classify_collapses_every_bus_failure() {
    assert_eq!(classify(Err::<Reading, u8>(0)), Err(Error::BusTransferFailure));
    assert_eq!(classify(Err::<Reading, u8>(255)), Err(Error::BusTransferFailure));
    assert_eq!(classify(Err::<Reading, &str>("timeout")), Err(Error::BusTransferFailure));
    assert_eq!(classify(Err::<Reading, ()>(())), Err(Error::BusTransferFailure));
}

#[test]
fn classify_passes_a_reading_to_its_meaning() {
    let reading = Reading::from_bytes([0x03, 0x20]);
    assert_eq!(classify(Ok::<Reading, ()>(reading)), Ok(Temperature { ticks: 100 }));
    assert_eq!(classify(Ok::<Reading, ()>(reading)), reading.temperature());
}

#[test]
fn concrete_frames() {
    assert_eq!(decode([0b0111_1111, 0b1111_1000]).map(|t| t.ticks as f32 * 0.25), Ok(1023.75));
    assert_eq!(decode([0b0000_0000, 0b0000_0000]).map(|t| t.ticks as f32 * 0.25), Ok(0.0));
    assert_eq!(decode([0b0000_0000, 0b0000_0100]), Err(Error::ThermocoupleDisconnected));
    assert_eq!(decode([0b0000_0000, 0b0000_0010]), Err(Error::ProtocolMismatch));
}

#[test]
fn same_bytes_same_result() {
    for bytes in [[0x7fu8, 0xf8u8], [0x00, 0x04], [0x00, 0x02], [0x12, 0x30]] {
        assert_eq!(decode(bytes), decode(bytes));
    }
    assert_eq!(classify(Err::<Reading, u8>(1)), classify(Err::<Reading, u8>(2)));
}

#[test]
fn millidegrees_is_250_per_tick() {
    assert_eq!(Temperature { ticks: 0 }.millidegrees(), 0);
    assert_eq!(Temperature { ticks: 1 }.millidegrees(), 250);
    assert_eq!(Temperature { ticks: 4 }.millidegrees(), 1_000);
    assert_eq!(Temperature { ticks: 4095 }.millidegrees(), 1_023_750);
    assert_eq!(Temperature { ticks: u16::MAX }.millidegrees(), 16_383_750);
}

#[test]
fn max_ticks_is_twelve_bits() {
    assert_eq!(MAX_TICKS, 4095);
    assert_eq!(MAX_TICKS, (1 << 12) - 1);
}
