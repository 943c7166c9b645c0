//! The transforms between the numbers that a message carries and the
//! quantities they stand for. Each quantity is counted in the step of its
//! wire encoding, so every transform is exact integer arithmetic.
use crate::codec::{
    bits_of, get_bits, i32_from_bits, i32_to_bits, le_byte, le_u32, signed32, u32_from_le,
    u32_to_le, unsigned32,
};
use crate::data::system::{ClassificationType, UaCategory, UaClass, UaClassification};
use vstd::prelude::*;

verus! {

/// Half metres between the zero of a wire altitude and sea level: a wire
/// altitude starts at 1000 m below it.
pub const ALTITUDE_OFFSET: i32 = 2000;

/// The highest speed, in sixteenths of a metre per second, that is sent
/// without the multiplier flag: 255 steps of 0.25 m/s.
pub const SPEED_LINEAR_MAX: u16 = 1020;

/// The speed, in sixteenths of a metre per second, from which every speed is
/// sent as the highest one: 254.25 m/s.
pub const SPEED_SATURATION: u16 = 4068;

/// The byte sent for any speed of at least `SPEED_SATURATION`.
pub const SPEED_RAW_MAX: u8 = 254;

/// Sixteen times the 63.75 m/s that are added to a byte sent with the
/// multiplier flag, times the flag's scale of three quarters.
pub const SPEED_MULTIPLIER_BASE: u16 = 765;

/// Seconds from 1970-01-01T00:00:00Z to 2019-01-01T00:00:00Z, the instant
/// from which a System message counts its timestamp.
pub const TIMESTAMP_EPOCH: i64 = 1546300800;

/// Unix time of the first instant that a UTC date-time can hold: midnight on
/// 1 January of the year -262143.
pub const MIN_UTC_SECONDS: i64 = -8_334_601_228_800;

/// Unix time of the last whole second that a UTC date-time can hold: 23:59:59
/// on 31 December of the year 262142.
pub const MAX_UTC_SECONDS: i64 = 8_210_266_876_799;

/// The altitude, in half metres, that the wire value `raw` stands for:
/// `raw * 0.5 - 1000` metres.
pub open spec fn altitude_of(raw: int) -> int {
    raw - ALTITUDE_OFFSET
}

/// The wire value sent for an altitude in half metres. Altitudes below
/// -1000 m are sent as the lowest value and altitudes above 31767.5 m as the
/// highest.
pub open spec fn altitude_raw(altitude: int) -> int {
    if altitude < -ALTITUDE_OFFSET {
        0
    } else if altitude > 0xffff - ALTITUDE_OFFSET {
        0xffff
    } else {
        altitude + ALTITUDE_OFFSET
    }
}

/// Reads an altitude from its wire value.
pub fn decode_altitude(raw: u16) -> (r: i32)
    ensures
        r == altitude_of(raw as int),
{
    raw as i32 - ALTITUDE_OFFSET
}

/// The wire value of an altitude.
pub fn encode_altitude(altitude: i32) -> (r: u16)
    ensures
        r == altitude_raw(altitude as int),
{
    if altitude < -ALTITUDE_OFFSET {
        0
    } else if altitude > 0xffff - ALTITUDE_OFFSET {
        0xffff
    } else {
        (altitude + ALTITUDE_OFFSET) as u16
    }
}

/// The speed, in sixteenths of a metre per second, that the byte `raw` stands
/// for: `raw * 0.25` m/s without the multiplier flag and
/// `(raw + 255 * 0.25) * 0.75` m/s with it.
pub open spec fn speed_of(multiplier: int, raw: int) -> int {
    if multiplier == 0 {
        4 * raw
    } else {
        12 * raw + SPEED_MULTIPLIER_BASE
    }
}

/// The multiplier flag sent for a speed: set above 63.75 m/s.
pub open spec fn speed_multiplier(speed: int) -> int {
    if speed > SPEED_LINEAR_MAX {
        1
    } else {
        0
    }
}

/// The byte sent for a speed in sixteenths of a metre per second. Up to
/// 63.75 m/s it counts quarters of a metre per second; above, it undoes the
/// multiplier's transform, rounding towards zero and stopping at 255; from
/// 254.25 m/s on it is `SPEED_RAW_MAX`.
pub open spec fn speed_raw(speed: int) -> int {
    if speed <= SPEED_LINEAR_MAX {
        speed / 4
    } else if speed < SPEED_SATURATION {
        if (speed - SPEED_MULTIPLIER_BASE) / 12 > 255 {
            255
        } else {
            (speed - SPEED_MULTIPLIER_BASE) / 12
        }
    } else {
        SPEED_RAW_MAX as int
    }
}

/// Reads a speed from the multiplier flag and the speed byte.
pub fn decode_speed(multiplier: u8, raw: u8) -> (r: u16)
    ensures
        r == speed_of(multiplier as int, raw as int),
{
    if multiplier == 0 {
        4 * (raw as u16)
    } else {
        12 * (raw as u16) + SPEED_MULTIPLIER_BASE
    }
}

/// The multiplier flag and the byte that carry `speed`.
pub fn encode_speed(speed: u16) -> (r: (u8, u8))
    ensures
        r.0 == speed_multiplier(speed as int),
        r.1 == speed_raw(speed as int),
{
    if speed <= SPEED_LINEAR_MAX {
        (0, (speed / 4) as u8)
    } else if speed < SPEED_SATURATION {
        let steps: u16 = (speed - SPEED_MULTIPLIER_BASE) / 12;
        if steps > 255 {
            (1, 255)
        } else {
            (1, steps as u8)
        }
    } else {
        (1, SPEED_RAW_MAX)
    }
}

/// The track direction, in degrees, that the byte `raw` stands for: the byte
/// itself in the eastern half circle, and 180 more in the western one.
pub open spec fn track_of(segment: int, raw: int) -> int {
    if segment == 0 {
        raw
    } else {
        raw + 180
    }
}

/// The east/west segment flag sent for a track direction: set from 180
/// degrees on.
pub open spec fn track_segment(track: int) -> int {
    if track >= 180 {
        1
    } else {
        0
    }
}

/// The byte sent for a track direction: the degrees within its half circle,
/// of which only the low eight bits are kept.
pub open spec fn track_raw(track: int) -> int {
    if track >= 180 {
        (track - 180) % 256
    } else {
        track
    }
}

/// Reads a track direction from the east/west segment flag and the track
/// byte.
pub fn decode_track(segment: u8, raw: u8) -> (r: u16)
    ensures
        r == track_of(segment as int, raw as int),
{
    if segment == 0 {
        raw as u16
    } else {
        raw as u16 + 180
    }
}

/// The segment flag and the byte that carry `track`.
pub fn encode_track(track: u16) -> (r: (u8, u8))
    ensures
        r.0 == track_segment(track as int),
        r.1 == track_raw(track as int),
{
    if track >= 180 {
        (1, ((track - 180) % 256) as u8)
    } else {
        (0, track as u8)
    }
}

/// The accuracy of a timestamp, in tenths of a second, that a nibble stands
/// for; zero says that none is given.
pub open spec fn timestamp_accuracy_of(nibble: u8) -> Option<u8> {
    if nibble == 0 {
        None
    } else {
        Some(nibble)
    }
}

/// The byte sent for the accuracy of a timestamp.
pub open spec fn timestamp_accuracy_raw(accuracy: Option<u8>) -> u8 {
    match accuracy {
        Some(tenths) => tenths,
        None => 0,
    }
}

/// Reads the accuracy of a timestamp from its nibble.
pub fn decode_timestamp_accuracy(nibble: u8) -> (r: Option<u8>)
    ensures
        r == timestamp_accuracy_of(nibble),
{
    if nibble == 0 {
        None
    } else {
        Some(nibble)
    }
}

/// The byte that carries the accuracy of a timestamp.
pub fn encode_timestamp_accuracy(accuracy: Option<u8>) -> (r: u8)
    ensures
        r == timestamp_accuracy_raw(accuracy),
{
    match accuracy {
        Some(tenths) => tenths,
        None => 0,
    }
}

/// The radius, in metres, that the byte `raw` stands for.
pub open spec fn radius_of(raw: int) -> int {
    10 * raw
}

/// The byte sent for a radius in metres: whole tens of metres, at most 255
/// of them.
pub open spec fn radius_raw(radius: int) -> int {
    if radius / 10 > 255 {
        255
    } else {
        radius / 10
    }
}

/// Reads a radius from its byte.
pub fn decode_radius(raw: u8) -> (r: u16)
    ensures
        r == radius_of(raw as int),
{
    10 * (raw as u16)
}

/// The byte that carries a radius.
pub fn encode_radius(radius: u16) -> (r: u8)
    ensures
        r == radius_raw(radius as int),
{
    let tens: u16 = radius / 10;
    if tens > 255 {
        255
    } else {
        tens as u8
    }
}

/// The coordinate, in ten-millionths of a degree, whose two's-complement
/// pattern four little-endian bytes hold.
pub fn decode_coordinate(bytes: [u8; 4]) -> (r: i32)
    ensures
        r == signed32(le_u32(bytes@[0], bytes@[1], bytes@[2], bytes@[3])),
{
    i32_from_bits(u32_from_le(bytes))
}

/// The four little-endian bytes of a coordinate's two's-complement pattern.
pub fn encode_coordinate(coordinate: i32) -> (r: [u8; 4])
    ensures
        forall|k: int| 0 <= k < 4 ==> r@[k] == le_byte(unsigned32(coordinate as int), k),
{
    u32_to_le(i32_to_bits(coordinate))
}

/// The classification that a System message's classification byte stands
/// for. Under European Union rules bits 6 to 4 hold the category and bits 2
/// to 0 the class; under any other classification the byte says nothing.
pub open spec fn classification_of(
    classification_type: ClassificationType,
    byte: u8,
) -> UaClassification {
    if classification_type == ClassificationType::EuropeanUnion {
        UaClassification {
            category: UaCategory::of_code(bits_of(byte, 6, 4)),
            class: UaClass::of_code(bits_of(byte, 2, 0)),
        }
    } else {
        UaClassification::spec_undefined()
    }
}

/// The classification byte sent for a classification: zero unless it falls
/// under European Union rules.
pub open spec fn classification_raw(
    classification_type: ClassificationType,
    classification: UaClassification,
) -> u8 {
    if classification_type == ClassificationType::EuropeanUnion {
        (classification.category.code() << 4) | classification.class.code()
    } else {
        0
    }
}

/// Reads a classification from its byte, under the rules of
/// `classification_type`.
pub fn decode_classification(classification_type: ClassificationType, byte: u8) -> (r:
    UaClassification)
    ensures
        r == classification_of(classification_type, byte),
{
    if classification_type == ClassificationType::EuropeanUnion {
        UaClassification {
            category: UaCategory::from(get_bits(byte, 6, 4)),
            class: UaClass::from(get_bits(byte, 2, 0)),
        }
    } else {
        UaClassification::undefined()
    }
}

/// The byte that carries a classification under the rules of
/// `classification_type`.
pub fn encode_classification(
    classification_type: ClassificationType,
    classification: &UaClassification,
) -> (r: u8)
    ensures
        r == classification_raw(classification_type, *classification),
{
    if classification_type == ClassificationType::EuropeanUnion {
        let category: u8 = u8::from(classification.category);
        let class: u8 = u8::from(classification.class);
        (category << 4) | class
    } else {
        0
    }
}

/// Whether a UTC date-time exists for the Unix time `secs`.
pub open spec fn utc_representable(secs: int) -> bool {
    MIN_UTC_SECONDS <= secs <= MAX_UTC_SECONDS
}

/// Asks chrono's `DateTime::<Utc>::from_timestamp`, with no fraction of a
/// second, whether it has a date-time for the Unix time `secs`.
///
/// This contract is taken on trust from chrono. `from_timestamp` splits
/// `secs` into the day since 1970-01-01 and the second of that day, and
/// returns a date-time exactly when the day lies in a year from -262143 to
/// 262142, the years of `NaiveDate::MIN` and `NaiveDate::MAX`. The first of
/// these days is 96,465,292 days before 1970-01-01 and the last one
/// 95,026,236 days after it, which gives the seconds from `MIN_UTC_SECONDS`
/// to `MAX_UTC_SECONDS`.
#[verifier::external_body]
fn utc_instant_exists(secs: i64) -> (r: bool)
    ensures
        r == utc_representable(secs as int),
{
    chrono::DateTime::<chrono::Utc>::from_timestamp(secs, 0).is_some()
}

/// The Unix time `secs` where it names an instant that a UTC date-time can
/// hold, and nothing where it does not.
pub fn utc_timestamp(secs: i64) -> (r: Option<i64>)
    ensures
        r == if utc_representable(secs as int) {
            Some(secs)
        } else {
            None
        },
{
    if utc_instant_exists(secs) {
        Some(secs)
    } else {
        None
    }
}

/// The instant, in Unix seconds, that a System message's timestamp stands
/// for.
pub open spec fn instant_of(raw: int) -> int {
    raw + TIMESTAMP_EPOCH
}

/// The timestamp sent for an instant in Unix seconds: the seconds since
/// 2019, of which only the low 32 bits are kept.
pub open spec fn instant_raw(secs: int) -> int {
    (secs - TIMESTAMP_EPOCH) % 0x1_0000_0000
}

/// The instant that a System message's timestamp names. Every such instant
/// lies between 2019 and 2155, so there always is one.
pub fn decode_timestamp(raw: u32) -> (r: Option<i64>)
    ensures
        r == Some(instant_of(raw as int) as i64),
        instant_of(raw as int) <= i64::MAX,
{
    utc_timestamp(raw as i64 + TIMESTAMP_EPOCH)
}

/// The timestamp that a System message carries for an instant.
pub fn encode_timestamp(secs: i64) -> (r: u32)
    ensures
        r == instant_raw(secs as int),
{
    let since: i128 = secs as i128 - TIMESTAMP_EPOCH as i128;
    let lifted: u128 = (since + 0x1_0000_0000_0000_0000) as u128;
    (lifted % 0x1_0000_0000) as u32
}

} // verus!
