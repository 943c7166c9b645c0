//! From the bytes of an advertisement to a typed message.
use crate::codec::fields::{
    altitude_of, classification_of, decode_altitude, decode_classification, decode_coordinate,
    decode_radius, decode_speed, decode_timestamp, decode_timestamp_accuracy, decode_track,
    instant_of, radius_of, speed_of, timestamp_accuracy_of, track_of, utc_representable,
};
use crate::codec::{
    bits_of, copy_to_id, get_bits, get_byte, get_bytes, i8_from_bits, le_u16, le_u32, signed32,
    signed8, too_short, u16_from_le, u32_from_le, DecodeError, MessageType,
};
use crate::data::basic_id::{BasicId, BasicIdView, IdType, UAType};
use crate::data::location::{
    HeightType, HorizontalAccuracy, Location, OperationalStatus, SpeedAccuracy, VerticalAccuracy,
};
use crate::data::operator_id::{OperatorId, OperatorIdType, OperatorIdView};
use crate::data::system::{ClassificationType, OperatorLocationType, System};
use crate::data::{MessageView, RemoteIDMessage};
use crate::OPEN_DRONE_ID_AD_CODE;
use vstd::prelude::*;

verus! {

/// How a decoding ended, with the message by its view.
pub open spec fn outcome_view(r: Result<Option<RemoteIDMessage>, DecodeError>) -> Result<
    Option<MessageView>,
    DecodeError,
> {
    match r {
        Ok(Some(message)) => Ok(Some(message@)),
        Ok(None) => Ok(None),
        Err(e) => Err(e),
    }
}

/// The Basic ID that a message buffer of at least 22 bytes holds: the kind
/// of identifier in the high nibble of byte 1, the kind of aircraft in its
/// low nibble, and the identifier in bytes 2 to 21.
pub open spec fn basic_id_of(buf: Seq<u8>) -> BasicIdView
    recommends
        buf.len() >= 22,
{
    BasicIdView {
        id_type: IdType::of_code(bits_of(buf[1], 7, 4)),
        ua_type: UAType::of_code(bits_of(buf[1], 3, 0)),
        uas_id: buf.subrange(2, 22),
    }
}

/// The end of the first field of a Basic ID that a buffer of `len` bytes,
/// `len < 22`, does not hold.
pub open spec fn basic_id_needs(len: int) -> int {
    if len < 2 {
        2
    } else {
        22
    }
}

/// What decoding a message buffer as a Basic ID gives.
pub open spec fn basic_id_decoded(buf: Seq<u8>) -> Result<Option<MessageView>, DecodeError> {
    if buf.len() >= 22 {
        Ok(Some(MessageView::BasicID(basic_id_of(buf))))
    } else {
        Err(too_short(basic_id_needs(buf.len() as int), buf.len() as int))
    }
}

/// Decodes a message buffer as a Basic ID.
pub fn parse_basic_id(buffer: &[u8]) -> (r: Result<Option<RemoteIDMessage>, DecodeError>)
    ensures
        outcome_view(r) == basic_id_decoded(buffer@),
{
    let kinds = get_byte(buffer, 1)?;
    let id_type = IdType::from(get_bits(kinds, 7, 4));
    let ua_type = UAType::from(get_bits(kinds, 3, 0));
    let id = get_bytes::<20>(buffer, 2)?;
    let uas_id = copy_to_id(&id);
    assert(uas_id@ =~= buffer@.subrange(2, 22));
    Ok(Some(RemoteIDMessage::BasicID(BasicId { id_type, ua_type, uas_id })))
}

/// The Operator ID that a message buffer of at least 25 bytes holds: the kind
/// of identifier in byte 1 and the identifier in bytes 2 to 21. Bytes 22 to
/// 24 are reserved.
pub open spec fn operator_id_of(buf: Seq<u8>) -> OperatorIdView
    recommends
        buf.len() >= 25,
{
    OperatorIdView { id_type: OperatorIdType::of_code(buf[1]), operator_id: buf.subrange(2, 22) }
}

/// The end of the first field of an Operator ID that a buffer of `len`
/// bytes, `len < 25`, does not hold.
pub open spec fn operator_id_needs(len: int) -> int {
    if len < 2 {
        2
    } else if len < 22 {
        22
    } else {
        25
    }
}

/// What decoding a message buffer as an Operator ID gives.
pub open spec fn operator_id_decoded(buf: Seq<u8>) -> Result<Option<MessageView>, DecodeError> {
    if buf.len() >= 25 {
        Ok(Some(MessageView::OperatorId(operator_id_of(buf))))
    } else {
        Err(too_short(operator_id_needs(buf.len() as int), buf.len() as int))
    }
}

/// Decodes a message buffer as an Operator ID.
pub fn parse_operator_id(buffer: &[u8]) -> (r: Result<Option<RemoteIDMessage>, DecodeError>)
    ensures
        outcome_view(r) == operator_id_decoded(buffer@),
{
    let id_type = OperatorIdType::from(get_byte(buffer, 1)?);
    let id = get_bytes::<20>(buffer, 2)?;
    let operator_id = copy_to_id(&id);
    let _reserved = get_bytes::<3>(buffer, 22)?;
    assert(operator_id@ =~= buffer@.subrange(2, 22));
    Ok(Some(RemoteIDMessage::OperatorId(OperatorId { id_type, operator_id })))
}

/// The unsigned 16-bit integer that `buf` holds, little-endian, from byte
/// `off` on.
pub open spec fn le_u16_at(buf: Seq<u8>, off: int) -> int {
    le_u16(buf[off], buf[off + 1])
}

/// The unsigned 32-bit integer that `buf` holds, little-endian, from byte
/// `off` on.
pub open spec fn le_u32_at(buf: Seq<u8>, off: int) -> int {
    le_u32(buf[off], buf[off + 1], buf[off + 2], buf[off + 3])
}

/// The Location that a message buffer of at least 24 bytes holds.
///
/// | bytes | field |
/// |---|---|
/// | 1 | bits 7..4 status, bit 2 height type, bit 1 east/west segment, bit 0 speed multiplier |
/// | 2 | track direction |
/// | 3 | speed |
/// | 4 | vertical speed |
/// | 5..8 | latitude |
/// | 9..12 | longitude |
/// | 13..14 | pressure altitude |
/// | 15..16 | geodetic altitude |
/// | 17..18 | height |
/// | 19 | bits 7..4 vertical accuracy, bits 3..0 horizontal accuracy |
/// | 20 | bits 7..4 barometric altitude accuracy, bits 3..0 speed accuracy |
/// | 21..22 | timestamp |
/// | 23 | bits 3..0 timestamp accuracy |
pub open spec fn location_of(buf: Seq<u8>) -> Location
    recommends
        buf.len() >= 24,
{
    Location {
        operational_status: OperationalStatus::of_code(bits_of(buf[1], 7, 4)),
        height_type: HeightType::of_code(bits_of(buf[1], 2, 2)),
        track_direction: track_of(bits_of(buf[1], 1, 1) as int, buf[2] as int) as u16,
        speed: speed_of(bits_of(buf[1], 0, 0) as int, buf[3] as int) as u16,
        vertical_speed: signed8(buf[4] as int) as i8,
        latidute: signed32(le_u32_at(buf, 5)) as i32,
        longitude: signed32(le_u32_at(buf, 9)) as i32,
        pressure_altitude: altitude_of(le_u16_at(buf, 13)) as i32,
        geodetic_altitude: altitude_of(le_u16_at(buf, 15)) as i32,
        height: altitude_of(le_u16_at(buf, 17)) as i32,
        vertical_accuracy: VerticalAccuracy::of_code(bits_of(buf[19], 7, 4)),
        horizontal_accuracy: HorizontalAccuracy::of_code(bits_of(buf[19], 3, 0)),
        baro_altitude_accuracy: VerticalAccuracy::of_code(bits_of(buf[20], 7, 4)),
        speed_accuracy: SpeedAccuracy::of_code(bits_of(buf[20], 3, 0)),
        timestamp: le_u16_at(buf, 21) as u16,
        timestamp_accuracy: timestamp_accuracy_of(bits_of(buf[23], 3, 0)),
    }
}

/// The end of the first field of a Location that a buffer of `len` bytes,
/// `len < 24`, does not hold.
pub open spec fn location_needs(len: int) -> int {
    if len < 2 {
        2
    } else if len < 3 {
        3
    } else if len < 4 {
        4
    } else if len < 5 {
        5
    } else if len < 9 {
        9
    } else if len < 13 {
        13
    } else if len < 15 {
        15
    } else if len < 17 {
        17
    } else if len < 19 {
        19
    } else if len < 20 {
        20
    } else if len < 21 {
        21
    } else if len < 23 {
        23
    } else {
        24
    }
}

/// What decoding a message buffer as a Location gives.
pub open spec fn location_decoded(buf: Seq<u8>) -> Result<Option<MessageView>, DecodeError> {
    if buf.len() >= 24 {
        Ok(Some(MessageView::Location(location_of(buf))))
    } else {
        Err(too_short(location_needs(buf.len() as int), buf.len() as int))
    }
}

/// Decodes a message buffer as a Location.
pub fn parse_location(buffer: &[u8]) -> (r: Result<Option<RemoteIDMessage>, DecodeError>)
    ensures
        outcome_view(r) == location_decoded(buffer@),
{
    let status_flags = get_byte(buffer, 1)?;
    let operational_status = OperationalStatus::from(get_bits(status_flags, 7, 4));
    let height_type = HeightType::from(get_bits(status_flags, 2, 2));
    let ew_direction_segment = get_bits(status_flags, 1, 1);
    let speed_multiplier = get_bits(status_flags, 0, 0);

    let track_direction = decode_track(ew_direction_segment, get_byte(buffer, 2)?);
    let speed = decode_speed(speed_multiplier, get_byte(buffer, 3)?);
    let vertical_speed = i8_from_bits(get_byte(buffer, 4)?);
    let latidute = decode_coordinate(get_bytes::<4>(buffer, 5)?);
    let longitude = decode_coordinate(get_bytes::<4>(buffer, 9)?);
    let pressure_altitude = decode_altitude(u16_from_le(get_bytes::<2>(buffer, 13)?));
    let geodetic_altitude = decode_altitude(u16_from_le(get_bytes::<2>(buffer, 15)?));
    let height = decode_altitude(u16_from_le(get_bytes::<2>(buffer, 17)?));

    let accuracy = get_byte(buffer, 19)?;
    let vertical_accuracy = VerticalAccuracy::from(get_bits(accuracy, 7, 4));
    let horizontal_accuracy = HorizontalAccuracy::from(get_bits(accuracy, 3, 0));

    let accuracy = get_byte(buffer, 20)?;
    let baro_altitude_accuracy = VerticalAccuracy::from(get_bits(accuracy, 7, 4));
    let speed_accuracy = SpeedAccuracy::from(get_bits(accuracy, 3, 0));

    let timestamp = u16_from_le(get_bytes::<2>(buffer, 21)?);
    let timestamp_accuracy = decode_timestamp_accuracy(get_bits(get_byte(buffer, 23)?, 3, 0));

    Ok(
        Some(
            RemoteIDMessage::Location(
                Location {
                    height_type,
                    operational_status,
                    latidute,
                    longitude,
                    height,
                    pressure_altitude,
                    geodetic_altitude,
                    track_direction,
                    speed,
                    vertical_speed,
                    horizontal_accuracy,
                    vertical_accuracy,
                    baro_altitude_accuracy,
                    speed_accuracy,
                    timestamp,
                    timestamp_accuracy,
                },
            ),
        ),
    )
}

/// The System report that a message buffer of at least 25 bytes holds.
///
/// | bytes | field |
/// |---|---|
/// | 1 | bits 4..2 classification type, bits 1..0 operator location type |
/// | 2..5 | operator latitude |
/// | 6..9 | operator longitude |
/// | 10..11 | area count |
/// | 12 | area radius |
/// | 13..14 | area ceiling |
/// | 15..16 | area floor |
/// | 17 | bits 6..4 category, bits 2..0 class |
/// | 18..19 | operator altitude |
/// | 20..23 | timestamp |
/// | 24 | reserved |
pub open spec fn system_of(buf: Seq<u8>) -> System
    recommends
        buf.len() >= 25,
{
    System {
        classification_type: ClassificationType::of_code(bits_of(buf[1], 4, 2)),
        operator_location_type: OperatorLocationType::of_code(bits_of(buf[1], 1, 0)),
        operator_latidute: signed32(le_u32_at(buf, 2)) as i32,
        operator_longitude: signed32(le_u32_at(buf, 6)) as i32,
        area_count: le_u16_at(buf, 10) as u16,
        area_radius: radius_of(buf[12] as int) as u16,
        area_ceiling: altitude_of(le_u16_at(buf, 13)) as i32,
        area_floor: altitude_of(le_u16_at(buf, 15)) as i32,
        ua_classification: classification_of(
            ClassificationType::of_code(bits_of(buf[1], 4, 2)),
            buf[17],
        ),
        operator_altitude: altitude_of(le_u16_at(buf, 18)) as i32,
        timestamp: instant_of(le_u32_at(buf, 20)) as i64,
    }
}

/// The end of the first field of a System report that a buffer of `len`
/// bytes, `len < 25`, does not hold.
pub open spec fn system_needs(len: int) -> int {
    if len < 2 {
        2
    } else if len < 6 {
        6
    } else if len < 10 {
        10
    } else if len < 12 {
        12
    } else if len < 13 {
        13
    } else if len < 15 {
        15
    } else if len < 17 {
        17
    } else if len < 18 {
        18
    } else if len < 20 {
        20
    } else if len < 24 {
        24
    } else {
        25
    }
}

/// What decoding a message buffer as a System report gives. A report whose
/// timestamp names no instant that a UTC date-time can hold gives no
/// message; the timestamp counts at most 2^32 seconds from 2019, so this
/// does not occur.
pub open spec fn system_decoded(buf: Seq<u8>) -> Result<Option<MessageView>, DecodeError> {
    if buf.len() < 25 {
        Err(too_short(system_needs(buf.len() as int), buf.len() as int))
    } else if utc_representable(instant_of(le_u32_at(buf, 20))) {
        Ok(Some(MessageView::System(system_of(buf))))
    } else {
        Ok(None)
    }
}

/// Decodes a message buffer as a System report.
pub fn parse_system(buffer: &[u8]) -> (r: Result<Option<RemoteIDMessage>, DecodeError>)
    ensures
        outcome_view(r) == system_decoded(buffer@),
        buffer@.len() >= 25 ==> r is Ok && r->Ok_0 is Some,
{
    let flags = get_byte(buffer, 1)?;
    let classification_type = ClassificationType::from(get_bits(flags, 4, 2));
    let operator_location_type = OperatorLocationType::from(get_bits(flags, 1, 0));

    let operator_latidute = decode_coordinate(get_bytes::<4>(buffer, 2)?);
    let operator_longitude = decode_coordinate(get_bytes::<4>(buffer, 6)?);
    let area_count = u16_from_le(get_bytes::<2>(buffer, 10)?);
    let area_radius = decode_radius(get_byte(buffer, 12)?);
    let area_ceiling = decode_altitude(u16_from_le(get_bytes::<2>(buffer, 13)?));
    let area_floor = decode_altitude(u16_from_le(get_bytes::<2>(buffer, 15)?));
    let ua_classification = decode_classification(classification_type, get_byte(buffer, 17)?);
    let operator_altitude = decode_altitude(u16_from_le(get_bytes::<2>(buffer, 18)?));
    let instant = decode_timestamp(u32_from_le(get_bytes::<4>(buffer, 20)?));
    let _reserved = get_byte(buffer, 24)?;

    match instant {
        Some(timestamp) => Ok(
            Some(
                RemoteIDMessage::System(
                    System {
                        classification_type,
                        operator_location_type,
                        operator_latidute,
                        operator_longitude,
                        operator_altitude,
                        area_count,
                        area_radius,
                        area_floor,
                        area_ceiling,
                        ua_classification,
                        timestamp,
                    },
                ),
            ),
        ),
        None => Ok(None),
    }
}

/// What decoding a message buffer gives. The high nibble of its first byte
/// names the kind of message; the low nibble, the protocol version, is not
/// looked at.
pub open spec fn message_decoded(buf: Seq<u8>) -> Result<Option<MessageView>, DecodeError> {
    if buf.len() < 1 {
        Err(too_short(1, 0))
    } else {
        match MessageType::of_code(bits_of(buf[0], 7, 4)) {
            MessageType::BasicId => basic_id_decoded(buf),
            MessageType::Location => location_decoded(buf),
            MessageType::OperatorId => operator_id_decoded(buf),
            MessageType::System => system_decoded(buf),
            MessageType::Selfid => Err(DecodeError::Unsupported(MessageType::Selfid)),
            MessageType::Auth => Err(DecodeError::Unsupported(MessageType::Auth)),
            MessageType::MessagePack => Err(DecodeError::Unsupported(MessageType::MessagePack)),
            MessageType::Invalid => Ok(None),
        }
    }
}

/// Decodes the 25 bytes of a message.
///
/// The result is a message, or nothing where the buffer names no kind of
/// message. A kind that this codec does not decode and a buffer that ends
/// within a field are errors.
pub fn from_message_buffer(data: &[u8]) -> (r: Result<Option<RemoteIDMessage>, DecodeError>)
    ensures
        outcome_view(r) == message_decoded(data@),
{
    let header = get_byte(data, 0)?;
    // protocol version, reserved for private use
    let _version = get_bits(header, 3, 0);

    let kind = MessageType::from(get_bits(header, 7, 4));
    match kind {
        MessageType::BasicId => parse_basic_id(data),
        MessageType::Location => parse_location(data),
        MessageType::OperatorId => parse_operator_id(data),
        MessageType::System => parse_system(data),
        MessageType::Selfid | MessageType::Auth | MessageType::MessagePack => Err(
            DecodeError::Unsupported(kind),
        ),
        MessageType::Invalid => Ok(None),
    }
}

/// What decoding the service data of an advertisement gives: nothing unless
/// it starts with the Open Drone ID code, and else what its message gives,
/// which starts behind the message counter.
pub open spec fn service_data_decoded(data: Seq<u8>) -> Result<Option<MessageView>, DecodeError> {
    if data.len() < 1 {
        Err(too_short(1, 0))
    } else if data[0] != OPEN_DRONE_ID_AD_CODE {
        Ok(None)
    } else if data.len() < 2 {
        Err(too_short(2, 1))
    } else {
        message_decoded(data.subrange(2, data.len() as int))
    }
}

/// Decodes the service data of an advertisement: the Open Drone ID code, a
/// message counter and the 25 bytes of a message.
pub fn from_service_data(data: &[u8]) -> (r: Result<Option<RemoteIDMessage>, DecodeError>)
    ensures
        outcome_view(r) == service_data_decoded(data@),
        data@.len() >= 1 && data@[0] != OPEN_DRONE_ID_AD_CODE ==> r == Ok::<
            Option<RemoteIDMessage>,
            DecodeError,
        >(None),
{
    let first_byte = get_byte(data, 0)?;
    if first_byte != OPEN_DRONE_ID_AD_CODE {
        return Ok(None);
    }
    let _message_counter = get_byte(data, 1)?;

    from_message_buffer(vstd::slice::slice_subrange(data, 2, data.len()))
}

} // verus!
