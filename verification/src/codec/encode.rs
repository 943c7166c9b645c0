//! From a typed message to the bytes of an advertisement.
use crate::codec::decode::{message_decoded, service_data_decoded};
use crate::codec::fields::{
    altitude_raw, classification_raw, encode_altitude, encode_classification, encode_coordinate,
    encode_radius, encode_speed, encode_timestamp, encode_timestamp_accuracy, encode_track,
    instant_raw, radius_raw, speed_multiplier, speed_raw, timestamp_accuracy_raw, track_raw,
    track_segment,
};
use crate::codec::{
    i8_to_bits, le_byte, put_bytes, u16_to_le, u32_to_le, unsigned32, unsigned8, DecodeError,
};
use crate::data::basic_id::{BasicId, BasicIdView};
use crate::data::location::Location;
use crate::data::operator_id::{OperatorId, OperatorIdView};
use crate::data::system::System;
use crate::data::{basic_id, location, operator_id, system, MessageView, RemoteIDMessage};
use crate::laws::{
    as_sent, carried_exactly, lemma_decoding_of_encoded, lemma_exact_is_unchanged,
    lemma_message_decoding,
};
use crate::OPEN_DRONE_ID_AD_CODE;
use vstd::prelude::*;

verus! {

/// The protocol version that this codec writes into every message.
pub const PROTOCOL_VERSION: u8 = 2;

/// The first byte of a message of the kind numbered `kind`: the kind in the
/// high nibble and the protocol version in the low one.
pub open spec fn header_of(kind: u8) -> u8 {
    (kind << 4) | PROTOCOL_VERSION
}

/// Two numbers below 16 in one byte, `high` in bits 7..4 and `low` in bits
/// 3..0.
pub open spec fn nibbles(high: u8, low: u8) -> u8 {
    (high << 4) | low
}

/// The 25 bytes of a Basic ID message.
pub open spec fn basic_id_bytes(m: BasicIdView) -> Seq<u8>
    recommends
        m.uas_id.len() == 20,
{
    seq![header_of(basic_id::MESSAGE_TYPE), nibbles(m.id_type.code(), m.ua_type.code())]
        + m.uas_id + seq![0u8, 0u8, 0u8]
}

/// Writes a Basic ID as the 25 bytes of a message.
pub fn encode_basic_id(msg: &BasicId) -> (r: [u8; 25])
    ensures
        r@ == basic_id_bytes(msg@),
{
    let mut target = [0u8; 25];
    target[0] = (basic_id::MESSAGE_TYPE << 4) | PROTOCOL_VERSION;
    let first_nibble: u8 = u8::from(msg.id_type);
    let last_nibble: u8 = u8::from(msg.ua_type);
    target[1] = (first_nibble << 4) | last_nibble;
    put_bytes(&mut target, 2, &msg.uas_id);
    assert(target@ =~= basic_id_bytes(msg@));
    target
}

/// The 25 bytes of an Operator ID message.
pub open spec fn operator_id_bytes(m: OperatorIdView) -> Seq<u8>
    recommends
        m.operator_id.len() == 20,
{
    seq![header_of(operator_id::MESSAGE_TYPE), m.id_type.code()] + m.operator_id + seq![
        0u8,
        0u8,
        0u8,
    ]
}

/// Writes an Operator ID as the 25 bytes of a message.
pub fn encode_operator_id(msg: &OperatorId) -> (r: [u8; 25])
    ensures
        r@ == operator_id_bytes(msg@),
{
    let mut target = [0u8; 25];
    target[0] = (operator_id::MESSAGE_TYPE << 4) | PROTOCOL_VERSION;
    target[1] = u8::from(msg.id_type);
    put_bytes(&mut target, 2, &msg.operator_id);
    assert(target@ =~= operator_id_bytes(msg@));
    target
}

/// The status byte of a Location: the operational status in bits 7..4, the
/// height type in bit 2, the east/west segment in bit 1 and the speed
/// multiplier in bit 0.
pub open spec fn location_flags(status: u8, height_type: u8, segment: u8, multiplier: u8) -> u8 {
    (status << 4) | (height_type << 2) | (segment << 1) | multiplier
}

/// The 25 bytes of a Location message.
pub open spec fn location_bytes(m: Location) -> Seq<u8> {
    seq![
        header_of(location::MESSAGE_TYPE),
        location_flags(
            m.operational_status.code(),
            m.height_type.code(),
            track_segment(m.track_direction as int) as u8,
            speed_multiplier(m.speed as int) as u8,
        ),
        track_raw(m.track_direction as int) as u8,
        speed_raw(m.speed as int) as u8,
        unsigned8(m.vertical_speed as int) as u8,
        le_byte(unsigned32(m.latidute as int), 0),
        le_byte(unsigned32(m.latidute as int), 1),
        le_byte(unsigned32(m.latidute as int), 2),
        le_byte(unsigned32(m.latidute as int), 3),
        le_byte(unsigned32(m.longitude as int), 0),
        le_byte(unsigned32(m.longitude as int), 1),
        le_byte(unsigned32(m.longitude as int), 2),
        le_byte(unsigned32(m.longitude as int), 3),
        le_byte(altitude_raw(m.pressure_altitude as int), 0),
        le_byte(altitude_raw(m.pressure_altitude as int), 1),
        le_byte(altitude_raw(m.geodetic_altitude as int), 0),
        le_byte(altitude_raw(m.geodetic_altitude as int), 1),
        le_byte(altitude_raw(m.height as int), 0),
        le_byte(altitude_raw(m.height as int), 1),
        nibbles(m.vertical_accuracy.code(), m.horizontal_accuracy.code()),
        nibbles(m.baro_altitude_accuracy.code(), m.speed_accuracy.code()),
        le_byte(m.timestamp as int, 0),
        le_byte(m.timestamp as int, 1),
        timestamp_accuracy_raw(m.timestamp_accuracy),
        0u8,
    ]
}

/// Writes a Location as the 25 bytes of a message.
pub fn encode_location(msg: &Location) -> (r: [u8; 25])
    ensures
        r@ == location_bytes(*msg),
{
    let mut target = [0u8; 25];
    target[0] = (location::MESSAGE_TYPE << 4) | PROTOCOL_VERSION;

    let operational_status: u8 = u8::from(msg.operational_status);
    let height_type: u8 = u8::from(msg.height_type);
    let (ew_direction_segment, track_direction) = encode_track(msg.track_direction);
    let (speed_multiplier, speed) = encode_speed(msg.speed);
    target[1] = (operational_status << 4) | (height_type << 2) | (ew_direction_segment << 1)
        | speed_multiplier;
    target[2] = track_direction;
    target[3] = speed;
    target[4] = i8_to_bits(msg.vertical_speed);
    put_bytes(&mut target, 5, &encode_coordinate(msg.latidute));
    put_bytes(&mut target, 9, &encode_coordinate(msg.longitude));
    put_bytes(&mut target, 13, &u16_to_le(encode_altitude(msg.pressure_altitude)));
    put_bytes(&mut target, 15, &u16_to_le(encode_altitude(msg.geodetic_altitude)));
    put_bytes(&mut target, 17, &u16_to_le(encode_altitude(msg.height)));

    let vertical_accuracy: u8 = u8::from(msg.vertical_accuracy);
    let horizontal_accuracy: u8 = u8::from(msg.horizontal_accuracy);
    target[19] = (vertical_accuracy << 4) | horizontal_accuracy;

    let baro_altitude_accuracy: u8 = u8::from(msg.baro_altitude_accuracy);
    let speed_accuracy: u8 = u8::from(msg.speed_accuracy);
    target[20] = (baro_altitude_accuracy << 4) | speed_accuracy;

    put_bytes(&mut target, 21, &u16_to_le(msg.timestamp));
    target[23] = encode_timestamp_accuracy(msg.timestamp_accuracy);
    // Reserved
    target[24] = 0;
    assert(target@ =~= location_bytes(*msg));
    target
}

/// The flags byte of a System report: the classification type in bits 4..2
/// and the operator location type in bits 1..0.
pub open spec fn system_flags(classification_type: u8, operator_location_type: u8) -> u8 {
    (classification_type << 2) | operator_location_type
}

/// The 25 bytes of a System message.
pub open spec fn system_bytes(m: System) -> Seq<u8> {
    seq![
        header_of(system::MESSAGE_TYPE),
        system_flags(m.classification_type.code(), m.operator_location_type.code()),
        le_byte(unsigned32(m.operator_latidute as int), 0),
        le_byte(unsigned32(m.operator_latidute as int), 1),
        le_byte(unsigned32(m.operator_latidute as int), 2),
        le_byte(unsigned32(m.operator_latidute as int), 3),
        le_byte(unsigned32(m.operator_longitude as int), 0),
        le_byte(unsigned32(m.operator_longitude as int), 1),
        le_byte(unsigned32(m.operator_longitude as int), 2),
        le_byte(unsigned32(m.operator_longitude as int), 3),
        le_byte(m.area_count as int, 0),
        le_byte(m.area_count as int, 1),
        radius_raw(m.area_radius as int) as u8,
        le_byte(altitude_raw(m.area_ceiling as int), 0),
        le_byte(altitude_raw(m.area_ceiling as int), 1),
        le_byte(altitude_raw(m.area_floor as int), 0),
        le_byte(altitude_raw(m.area_floor as int), 1),
        classification_raw(m.classification_type, m.ua_classification),
        le_byte(altitude_raw(m.operator_altitude as int), 0),
        le_byte(altitude_raw(m.operator_altitude as int), 1),
        le_byte(instant_raw(m.timestamp as int), 0),
        le_byte(instant_raw(m.timestamp as int), 1),
        le_byte(instant_raw(m.timestamp as int), 2),
        le_byte(instant_raw(m.timestamp as int), 3),
        0u8,
    ]
}

/// Writes a System report as the 25 bytes of a message.
pub fn encode_system(msg: &System) -> (r: [u8; 25])
    ensures
        r@ == system_bytes(*msg),
{
    let mut target = [0u8; 25];
    target[0] = (system::MESSAGE_TYPE << 4) | PROTOCOL_VERSION;

    let classification_type: u8 = u8::from(msg.classification_type);
    let operator_location_type: u8 = u8::from(msg.operator_location_type);
    target[1] = (classification_type << 2) | operator_location_type;
    put_bytes(&mut target, 2, &encode_coordinate(msg.operator_latidute));
    put_bytes(&mut target, 6, &encode_coordinate(msg.operator_longitude));
    put_bytes(&mut target, 10, &u16_to_le(msg.area_count));
    target[12] = encode_radius(msg.area_radius);
    put_bytes(&mut target, 13, &u16_to_le(encode_altitude(msg.area_ceiling)));
    put_bytes(&mut target, 15, &u16_to_le(encode_altitude(msg.area_floor)));
    target[17] = encode_classification(msg.classification_type, &msg.ua_classification);
    put_bytes(&mut target, 18, &u16_to_le(encode_altitude(msg.operator_altitude)));
    put_bytes(&mut target, 20, &u32_to_le(encode_timestamp(msg.timestamp)));
    // Reserved
    target[24] = 0;
    assert(target@ =~= system_bytes(*msg));
    target
}

/// Whether this codec writes messages of the kind of `m`: all but Self ID.
pub open spec fn encodable(m: MessageView) -> bool {
    !(m is SelfId)
}

/// The 25 bytes of a message.
pub open spec fn message_bytes(m: MessageView) -> Seq<u8>
    recommends
        encodable(m),
{
    match m {
        MessageView::BasicID(basic_id) => basic_id_bytes(basic_id),
        MessageView::Location(location) => location_bytes(location),
        MessageView::System(system) => system_bytes(system),
        MessageView::OperatorId(operator_id) => operator_id_bytes(operator_id),
        MessageView::SelfId(_) => arbitrary(),
    }
}

/// The 27 bytes of the service data of an advertisement: the Open Drone ID
/// code, the message counter and the message.
pub open spec fn service_data_bytes(m: MessageView, message_counter: u8) -> Seq<u8>
    recommends
        encodable(m),
{
    seq![OPEN_DRONE_ID_AD_CODE, message_counter] + message_bytes(m)
}

/// Writes a message as the 25 bytes that `from_message_buffer` reads.
///
/// A Self ID message is not written: this codec implements none.
pub fn to_message_buffer(msg: &RemoteIDMessage) -> (r: [u8; 25])
    requires
        encodable(msg@),
    ensures
        r@ == message_bytes(msg@),
        message_decoded(r@) == Ok::<Option<MessageView>, DecodeError>(Some(as_sent(msg@))),
{
    proof {
        lemma_message_decoding(msg@);
    }
    match msg {
        RemoteIDMessage::BasicID(basic_id) => encode_basic_id(basic_id),
        RemoteIDMessage::Location(location) => encode_location(location),
        RemoteIDMessage::System(system) => encode_system(system),
        RemoteIDMessage::OperatorId(operator_id) => encode_operator_id(operator_id),
        RemoteIDMessage::SelfId(_) => vstd::pervasive::unreached(),
    }
}

/// Writes a message as the service data of an advertisement.
///
/// Decoding the result gives what the wire format carries of the message:
/// the message itself where it is carried exactly, and else the message with
/// each quantity cut to what a message has a place for.
///
/// A Self ID message is not written: this codec implements none.
pub fn to_service_data(msg: &RemoteIDMessage, message_counter: u8) -> (r: [u8; 27])
    requires
        encodable(msg@),
    ensures
        r@ == service_data_bytes(msg@, message_counter),
        service_data_decoded(r@) == Ok::<Option<MessageView>, DecodeError>(Some(as_sent(msg@))),
        carried_exactly(msg@) ==> service_data_decoded(r@) == Ok::<
            Option<MessageView>,
            DecodeError,
        >(Some(msg@)),
{
    let mut data = [0u8; 27];
    data[0] = OPEN_DRONE_ID_AD_CODE;
    data[1] = message_counter;
    put_bytes(&mut data, 2, &to_message_buffer(msg));
    assert(data@ =~= service_data_bytes(msg@, message_counter));
    proof {
        lemma_decoding_of_encoded(msg@, message_counter);
        lemma_exact_is_unchanged(msg@);
    }
    data
}

} // verus!
