//! The wire format of the chip: one 16-bit frame per read, most significant
//! byte first.
//!
//! | bits    | meaning                                             |
//! |---------|-----------------------------------------------------|
//! | 15      | unused                                              |
//! | 14 .. 3 | temperature, in steps of a quarter degree Celsius   |
//! | 2       | set when no thermocouple is attached                |
//! | 1       | identity of the chip family, always clear           |
//! | 0       | unused                                              |
//!
//! The layout is stated arithmetically, over the frame as a number, so that
//! it can be read without knowing how the decoder shifts and masks.

use vstd::prelude::*;

verus! {

/// The largest temperature magnitude that twelve bits hold.
pub const MAX_TICKS: u16 = 4095;

/// The frame that two received bytes form, the first byte in the high order.
pub open spec fn frame_of(high: u8, low: u8) -> u16 {
    (256 * (high as int) + (low as int)) as u16
}

/// The temperature magnitude of a frame: bits 14 to 3.
pub open spec fn frame_ticks(frame: u16) -> int {
    (frame as int / 8) % 4096
}

/// Whether a frame reports an open thermocouple input: bit 2.
pub open spec fn frame_open_circuit(frame: u16) -> bool {
    (frame as int / 4) % 2 == 1
}

/// The identity bit of a frame: bit 1.
pub open spec fn frame_device_id(frame: u16) -> int {
    (frame as int / 2) % 2
}

/// The number whose binary digits are the given fields, each at its place in
/// the frame. The two spare bits, 15 and 0, are free: the chip gives them no
/// meaning.
pub open spec fn compose_frame(
    ticks: int,
    open_circuit: bool,
    device_id: int,
    spare_high: bool,
    spare_low: bool,
) -> int {
    (if spare_high { 32768int } else { 0 })
        + 8 * ticks
        + (if open_circuit { 4int } else { 0 })
        + 2 * device_id
        + (if spare_low { 1int } else { 0 })
}

/// Joins the two bytes of an exchange into a frame, big-endian.
pub fn assemble(bytes: [u8; 2]) -> (frame: u16)
    ensures
        frame == frame_of(bytes[0], bytes[1]),
        frame == 256 * bytes[0] + bytes[1],
{
    let high: u16 = bytes[0] as u16;
    let low: u16 = bytes[1] as u16;
    assert((high << 8) | low == 256 * high + low) by (bit_vector)
        requires
            high < 256,
            low < 256,
    ;
    (high << 8) | low
}

/// Fields in range compose to a frame, and that frame carries exactly those
/// fields, whatever the spare bits hold.
pub proof fn lemma_composed_frame_carries_its_fields(
    ticks: int,
    open_circuit: bool,
    device_id: int,
    spare_high: bool,
    spare_low: bool,
)
    requires
        0 <= ticks <= MAX_TICKS,
        0 <= device_id <= 1,
    ensures
        0 <= compose_frame(ticks, open_circuit, device_id, spare_high, spare_low) <= u16::MAX,
        frame_ticks(compose_frame(ticks, open_circuit, device_id, spare_high, spare_low) as u16)
            == ticks,
        frame_open_circuit(
            compose_frame(ticks, open_circuit, device_id, spare_high, spare_low) as u16,
        ) == open_circuit,
        frame_device_id(
            compose_frame(ticks, open_circuit, device_id, spare_high, spare_low) as u16,
        ) == device_id,
{
}

/// Every frame is composed of its own fields and its two spare bits: the
/// layout accounts for all sixteen bits, and the fields are in range.
pub proof fn lemma_frame_is_composed_of_its_fields(frame: u16)
    ensures
        0 <= frame_ticks(frame) <= MAX_TICKS,
        0 <= frame_device_id(frame) <= 1,
        compose_frame(
            frame_ticks(frame),
            frame_open_circuit(frame),
            frame_device_id(frame),
            frame >= 32768,
            frame as int % 2 == 1,
        ) == frame,
{
}

} // verus!
