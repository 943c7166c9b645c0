//! What holds between the decoder and the encoder.
use crate::codec::decode::{
    basic_id_of, le_u32_at, location_of, message_decoded, operator_id_of, service_data_decoded,
    system_of,
};
use crate::codec::encode::{
    basic_id_bytes, header_of, location_bytes, location_flags, message_bytes, nibbles,
    operator_id_bytes, service_data_bytes, system_bytes, system_flags,
};
use crate::codec::fields::{
    altitude_of, altitude_raw, classification_of, classification_raw, instant_of, instant_raw,
    radius_of, radius_raw, speed_multiplier, speed_of, speed_raw, timestamp_accuracy_of,
    timestamp_accuracy_raw, track_of, track_raw, track_segment, utc_representable,
    ALTITUDE_OFFSET, SPEED_LINEAR_MAX, SPEED_MULTIPLIER_BASE, TIMESTAMP_EPOCH,
};
use crate::codec::{
    bits_of, le_byte, le_u16, le_u32, signed32, signed8, unsigned32, unsigned8, DecodeError,
    MessageType,
};
use crate::data::basic_id::{BasicIdView, IdType, UAType};
use crate::data::location::{
    HeightType, HorizontalAccuracy, Location, OperationalStatus, SpeedAccuracy, VerticalAccuracy,
};
use crate::data::operator_id::{OperatorIdType, OperatorIdView};
use crate::data::system::{
    ClassificationType, OperatorLocationType, System, UaCategory, UaClass, UaClassification,
};
use crate::data::MessageView;
use crate::OPEN_DRONE_ID_AD_CODE;
use vstd::prelude::*;

verus! {

/// Two little-endian bytes read back give the number that was written.
pub proof fn lemma_le_u16_round_trip(x: int)
    requires
        0 <= x < 0x1_0000,
    ensures
        le_u16(le_byte(x, 0), le_byte(x, 1)) == x,
{
}

/// Four little-endian bytes read back give the number that was written.
pub proof fn lemma_le_u32_round_trip(x: int)
    requires
        0 <= x < 0x1_0000_0000,
    ensures
        le_u32(le_byte(x, 0), le_byte(x, 1), le_byte(x, 2), le_byte(x, 3)) == x,
{
}

/// A two's-complement pattern read back gives the number that was written.
pub proof fn lemma_twos_complement_round_trip(v: int)
    ensures
        -0x8000_0000 <= v < 0x8000_0000 ==> signed32(unsigned32(v)) == v && 0 <= unsigned32(v)
            < 0x1_0000_0000,
        -0x80 <= v < 0x80 ==> signed8(unsigned8(v)) == v && 0 <= unsigned8(v) < 0x100,
{
}

/// Each of two numbers below 16 that share a byte is read back from its
/// nibble.
pub proof fn lemma_nibbles(high: u8, low: u8)
    requires
        high < 16,
        low < 16,
    ensures
        bits_of(nibbles(high, low), 7, 4) == high,
        bits_of(nibbles(high, low), 3, 0) == low,
{
    assert(bits_of(nibbles(high, low), 7, 4) == high && bits_of(nibbles(high, low), 3, 0) == low)
        by (bit_vector)
        requires
            high < 16,
            low < 16,
    ;
}

/// The kind of a message is read back from the high nibble of its header.
pub proof fn lemma_header(kind: u8)
    requires
        kind < 16,
    ensures
        bits_of(header_of(kind), 7, 4) == kind,
{
    assert(bits_of(header_of(kind), 7, 4) == kind) by (bit_vector)
        requires
            kind < 16,
    ;
}

/// Each field of a Location's status byte is read back from its bits.
pub proof fn lemma_location_flags(status: u8, height_type: u8, segment: u8, multiplier: u8)
    requires
        status < 16,
        height_type < 2,
        segment < 2,
        multiplier < 2,
    ensures
        bits_of(location_flags(status, height_type, segment, multiplier), 7, 4) == status,
        bits_of(location_flags(status, height_type, segment, multiplier), 2, 2) == height_type,
        bits_of(location_flags(status, height_type, segment, multiplier), 1, 1) == segment,
        bits_of(location_flags(status, height_type, segment, multiplier), 0, 0) == multiplier,
{
    let flags = location_flags(status, height_type, segment, multiplier);
    assert(bits_of(flags, 7, 4) == status && bits_of(flags, 2, 2) == height_type && bits_of(
        flags,
        1,
        1,
    ) == segment && bits_of(flags, 0, 0) == multiplier) by (bit_vector)
        requires
            flags == location_flags(status, height_type, segment, multiplier),
            status < 16,
            height_type < 2,
            segment < 2,
            multiplier < 2,
    ;
}

/// Each field of a System report's flags byte is read back from its bits.
pub proof fn lemma_system_flags(classification_type: u8, operator_location_type: u8)
    requires
        classification_type < 8,
        operator_location_type < 4,
    ensures
        bits_of(system_flags(classification_type, operator_location_type), 4, 2)
            == classification_type,
        bits_of(system_flags(classification_type, operator_location_type), 1, 0)
            == operator_location_type,
{
    let flags = system_flags(classification_type, operator_location_type);
    assert(bits_of(flags, 4, 2) == classification_type && bits_of(flags, 1, 0)
        == operator_location_type) by (bit_vector)
        requires
            flags == system_flags(classification_type, operator_location_type),
            classification_type < 8,
            operator_location_type < 4,
    ;
}

/// Every byte sent without the multiplier flag stands for a speed of at most
/// 63.75 m/s, which is sent as that byte without the flag.
pub proof fn lemma_speed_linear_round_trip(raw: u8)
    ensures
        speed_of(0, raw as int) <= SPEED_LINEAR_MAX,
        speed_multiplier(speed_of(0, raw as int)) == 0,
        speed_raw(speed_of(0, raw as int)) == raw,
{
}

/// Every byte from 22 on that is sent with the multiplier flag stands for a
/// speed above 63.75 m/s, which is sent as that byte with the flag. The
/// bytes below 22 stand for speeds that are sent without the flag.
pub proof fn lemma_speed_multiplier_round_trip(raw: u8)
    ensures
        raw >= 22 ==> speed_multiplier(speed_of(1, raw as int)) == 1 && speed_raw(
            speed_of(1, raw as int),
        ) == raw,
        raw < 22 ==> speed_multiplier(speed_of(1, raw as int)) == 0,
{
}

/// The speed that is read from what was written for `speed`.
pub open spec fn speed_as_sent(speed: int) -> int {
    speed_of(speed_multiplier(speed), speed_raw(speed))
}

/// Whether a speed, in sixteenths of a metre per second, is one that a byte
/// and the multiplier flag stand for and that is sent as that byte and flag:
/// a multiple of 0.25 m/s up to 63.75 m/s, or 47.8125 m/s and a multiple of
/// 0.75 m/s above 63.75 m/s and up to 239.0625 m/s.
pub open spec fn speed_exact(speed: int) -> bool {
    ||| 0 <= speed <= SPEED_LINEAR_MAX && speed % 4 == 0
    ||| SPEED_LINEAR_MAX < speed <= 12 * 255 + SPEED_MULTIPLIER_BASE && (speed
        - SPEED_MULTIPLIER_BASE) % 12 == 0
}

/// A speed is read back as it was written exactly where it is one of
/// `speed_exact`. Any speed below 239.8125 m/s is read back as the next
/// lower speed that a byte stands for, which is less than a step below it:
/// 0.25 m/s up to 63.75 m/s and 0.75 m/s above.
pub proof fn lemma_speed_round_trip(speed: u16)
    ensures
        0 <= speed_raw(speed as int) <= 255,
        0 <= speed_as_sent(speed as int) <= u16::MAX,
        speed_as_sent(speed as int) == speed <==> speed_exact(speed as int),
        speed <= SPEED_LINEAR_MAX ==> 0 <= speed - speed_as_sent(speed as int) < 4,
        SPEED_LINEAR_MAX < speed < 12 * 256 + SPEED_MULTIPLIER_BASE ==> 0 <= speed - speed_as_sent(
            speed as int,
        ) < 12,
{
}

/// The track direction that is read from what was written for `track`.
pub open spec fn track_as_sent(track: int) -> int {
    track_of(track_segment(track), track_raw(track))
}

/// A track direction is read back as it was written exactly where it is at
/// most 435 degrees, which holds every direction of the compass.
pub proof fn lemma_track_round_trip(track: u16)
    ensures
        0 <= track_raw(track as int) <= 255,
        0 <= track_as_sent(track as int) <= 435,
        track_as_sent(track as int) == track <==> track <= 435,
{
}

/// The altitude that is read from what was written for `altitude`.
pub open spec fn altitude_as_sent(altitude: int) -> int {
    altitude_of(altitude_raw(altitude))
}

/// Whether an altitude, in half metres, is within what a message carries:
/// from -1000 m to 31767.5 m.
pub open spec fn altitude_exact(altitude: int) -> bool {
    -ALTITUDE_OFFSET <= altitude <= 0xffff - ALTITUDE_OFFSET
}

/// An altitude is read back as it was written exactly where it lies from
/// -1000 m to 31767.5 m; a lower one is read back as -1000 m and a higher one
/// as 31767.5 m.
pub proof fn lemma_altitude_round_trip(altitude: i32)
    ensures
        0 <= altitude_raw(altitude as int) <= 0xffff,
        altitude_exact(altitude_as_sent(altitude as int)),
        altitude_as_sent(altitude as int) == altitude <==> altitude_exact(altitude as int),
        altitude < -ALTITUDE_OFFSET ==> altitude_as_sent(altitude as int) == -ALTITUDE_OFFSET,
        altitude > 0xffff - ALTITUDE_OFFSET ==> altitude_as_sent(altitude as int) == 0xffff
            - ALTITUDE_OFFSET,
{
}

/// The radius that is read from what was written for `radius`.
pub open spec fn radius_as_sent(radius: int) -> int {
    radius_of(radius_raw(radius))
}

/// Whether a radius, in metres, is one that a message carries: a multiple
/// of 10 m up to 2550 m.
pub open spec fn radius_exact(radius: int) -> bool {
    0 <= radius <= 2550 && radius % 10 == 0
}

/// A radius is read back as it was written exactly where it is a multiple
/// of 10 m up to 2550 m. Any radius below 2560 m is read back as the next
/// lower multiple of 10 m, and any other as 2550 m.
pub proof fn lemma_radius_round_trip(radius: u16)
    ensures
        0 <= radius_raw(radius as int) <= 255,
        radius_exact(radius_as_sent(radius as int)),
        radius_as_sent(radius as int) == radius <==> radius_exact(radius as int),
        radius < 2560 ==> 0 <= radius - radius_as_sent(radius as int) < 10,
        radius >= 2560 ==> radius_as_sent(radius as int) == 2550,
{
}

/// The accuracy of a timestamp that is read from what was written for
/// `accuracy`: only the low nibble of its byte is read.
pub open spec fn timestamp_accuracy_as_sent(accuracy: Option<u8>) -> Option<u8> {
    timestamp_accuracy_of(bits_of(timestamp_accuracy_raw(accuracy), 3, 0))
}

/// Whether the accuracy of a timestamp is one that a message carries: none,
/// or 0.1 s to 1.5 s.
pub open spec fn timestamp_accuracy_exact(accuracy: Option<u8>) -> bool {
    match accuracy {
        Some(tenths) => 1 <= tenths <= 15,
        None => true,
    }
}

/// The accuracy of a timestamp is read back as it was written exactly where
/// it is none, or 0.1 s to 1.5 s.
pub proof fn lemma_timestamp_accuracy_round_trip(accuracy: Option<u8>)
    ensures
        timestamp_accuracy_exact(timestamp_accuracy_as_sent(accuracy)),
        timestamp_accuracy_as_sent(accuracy) == accuracy <==> timestamp_accuracy_exact(accuracy),
{
    crate::codec::lemma_bit_ranges(timestamp_accuracy_raw(accuracy));
}

/// The instant that is read from what was written for `secs`.
pub open spec fn instant_as_sent(secs: int) -> int {
    instant_of(instant_raw(secs))
}

/// Whether an instant, in Unix seconds, is one that a System report carries:
/// fewer than 2^32 seconds after the start of 2019.
pub open spec fn instant_exact(secs: int) -> bool {
    TIMESTAMP_EPOCH <= secs < TIMESTAMP_EPOCH + 0x1_0000_0000
}

/// An instant is read back as it was written exactly where it lies fewer
/// than 2^32 seconds after the start of 2019. Every instant that is read is
/// one for which a UTC date-time exists.
pub proof fn lemma_instant_round_trip(secs: i64)
    ensures
        0 <= instant_raw(secs as int) < 0x1_0000_0000,
        instant_exact(instant_as_sent(secs as int)),
        utc_representable(instant_as_sent(secs as int)),
        instant_as_sent(secs as int) == secs <==> instant_exact(secs as int),
{
}

/// The classification that is read from what was written for
/// `classification` under the rules of `classification_type`.
pub open spec fn classification_as_sent(
    classification_type: ClassificationType,
    classification: UaClassification,
) -> UaClassification {
    classification_of(classification_type, classification_raw(classification_type, classification))
}

/// A classification is read back as it was written exactly where it falls
/// under European Union rules or is the undefined one: under other rules the
/// byte carries nothing.
pub proof fn lemma_classification_round_trip(
    classification_type: ClassificationType,
    classification: UaClassification,
)
    ensures
        classification_as_sent(classification_type, classification) == classification <==> (
        classification_type == ClassificationType::EuropeanUnion || classification
            == UaClassification::spec_undefined()),
{
    let category = classification.category.code();
    let class = classification.class.code();
    assert(bits_of((category << 4) | class, 6, 4) == category && bits_of(
        (category << 4) | class,
        2,
        0,
    ) == class) by (bit_vector)
        requires
            category < 8,
            class < 8,
    ;
}

/// What is read from the message that was written for a Location: the
/// Location with each quantity cut to what the wire format has a place for.
pub open spec fn location_as_sent(m: Location) -> Location {
    Location {
        speed: speed_as_sent(m.speed as int) as u16,
        track_direction: track_as_sent(m.track_direction as int) as u16,
        pressure_altitude: altitude_as_sent(m.pressure_altitude as int) as i32,
        geodetic_altitude: altitude_as_sent(m.geodetic_altitude as int) as i32,
        height: altitude_as_sent(m.height as int) as i32,
        timestamp_accuracy: timestamp_accuracy_as_sent(m.timestamp_accuracy),
        ..m
    }
}

/// What is read from the message that was written for a System report: the
/// report with each quantity cut to what the wire format has a place for.
pub open spec fn system_as_sent(m: System) -> System {
    System {
        area_radius: radius_as_sent(m.area_radius as int) as u16,
        area_ceiling: altitude_as_sent(m.area_ceiling as int) as i32,
        area_floor: altitude_as_sent(m.area_floor as int) as i32,
        operator_altitude: altitude_as_sent(m.operator_altitude as int) as i32,
        ua_classification: classification_as_sent(m.classification_type, m.ua_classification),
        timestamp: instant_as_sent(m.timestamp as int) as i64,
        ..m
    }
}

/// What is read from the bytes that were written for a message.
pub open spec fn as_sent(m: MessageView) -> MessageView {
    match m {
        MessageView::BasicID(basic_id) => m,
        MessageView::Location(location) => MessageView::Location(location_as_sent(location)),
        MessageView::System(system) => MessageView::System(system_as_sent(system)),
        MessageView::OperatorId(operator_id) => MessageView::OperatorId(
            OperatorIdView {
                id_type: OperatorIdType::of_code(operator_id.id_type.code()),
                operator_id: operator_id.operator_id,
            },
        ),
        MessageView::SelfId(_) => m,
    }
}

/// Whether every field of a Location has a value that a message carries
/// without loss.
pub open spec fn location_exact(m: Location) -> bool {
    &&& speed_exact(m.speed as int)
    &&& m.track_direction <= 435
    &&& altitude_exact(m.pressure_altitude as int)
    &&& altitude_exact(m.geodetic_altitude as int)
    &&& altitude_exact(m.height as int)
    &&& timestamp_accuracy_exact(m.timestamp_accuracy)
}

/// Whether every field of a System report has a value that a message carries
/// without loss.
pub open spec fn system_exact(m: System) -> bool {
    &&& radius_exact(m.area_radius as int)
    &&& altitude_exact(m.area_ceiling as int)
    &&& altitude_exact(m.area_floor as int)
    &&& altitude_exact(m.operator_altitude as int)
    &&& m.classification_type != ClassificationType::EuropeanUnion ==> m.ua_classification
        == UaClassification::spec_undefined()
    &&& instant_exact(m.timestamp as int)
}

/// Whether a message is of a kind that the codec writes and has the 20
/// bytes of its identifier.
pub open spec fn well_formed(m: MessageView) -> bool {
    match m {
        MessageView::BasicID(basic_id) => basic_id.uas_id.len() == 20,
        MessageView::Location(_) => true,
        MessageView::System(_) => true,
        MessageView::OperatorId(operator_id) => operator_id.operator_id.len() == 20,
        MessageView::SelfId(_) => false,
    }
}

/// Whether a message is one that the codec writes and that its bytes carry
/// without loss: each of its numbers has a value that the wire format has a
/// place for.
pub open spec fn carried_exactly(m: MessageView) -> bool {
    &&& well_formed(m)
    &&& match m {
        MessageView::BasicID(_) => true,
        MessageView::Location(location) => location_exact(location),
        MessageView::System(system) => system_exact(system),
        MessageView::OperatorId(operator_id) => operator_id.id_type.is_canonical(),
        MessageView::SelfId(_) => false,
    }
}

/// A message is carried exactly where what is read back of it is the
/// message itself, and only there.
pub proof fn lemma_exact_is_unchanged(m: MessageView)
    requires
        well_formed(m),
    ensures
        as_sent(m) == m <==> carried_exactly(m),
{
    match m {
        MessageView::BasicID(_) => {},
        MessageView::Location(location) => {
            lemma_speed_round_trip(location.speed);
            lemma_track_round_trip(location.track_direction);
            lemma_altitude_round_trip(location.pressure_altitude);
            lemma_altitude_round_trip(location.geodetic_altitude);
            lemma_altitude_round_trip(location.height);
            lemma_timestamp_accuracy_round_trip(location.timestamp_accuracy);
        },
        MessageView::System(system) => {
            lemma_radius_round_trip(system.area_radius);
            lemma_altitude_round_trip(system.area_ceiling);
            lemma_altitude_round_trip(system.area_floor);
            lemma_altitude_round_trip(system.operator_altitude);
            lemma_classification_round_trip(system.classification_type, system.ua_classification);
            lemma_instant_round_trip(system.timestamp);
        },
        MessageView::OperatorId(operator_id) => {},
        MessageView::SelfId(_) => {},
    }
}

/// Whether every number of a Location lies within what a message has a
/// place for: its speed below 239.8125 m/s, its track direction up to 435
/// degrees, its altitudes from -1000 m to 31767.5 m, and the accuracy of its
/// timestamp none or from 0.1 s to 1.5 s.
pub open spec fn location_in_range(m: Location) -> bool {
    &&& m.speed < 12 * 256 + SPEED_MULTIPLIER_BASE
    &&& m.track_direction <= 435
    &&& altitude_exact(m.pressure_altitude as int)
    &&& altitude_exact(m.geodetic_altitude as int)
    &&& altitude_exact(m.height as int)
    &&& timestamp_accuracy_exact(m.timestamp_accuracy)
}

/// Of a Location within range, all that a message loses is the part of the
/// speed below one step of the speed byte: 0.25 m/s up to 63.75 m/s and
/// 0.75 m/s above.
pub proof fn lemma_location_within_step(m: Location)
    requires
        location_in_range(m),
    ensures
        location_as_sent(m) == (Location { speed: location_as_sent(m).speed, ..m }),
        m.speed <= SPEED_LINEAR_MAX ==> 0 <= m.speed - location_as_sent(m).speed < 4,
        m.speed > SPEED_LINEAR_MAX ==> 0 <= m.speed - location_as_sent(m).speed < 12,
{
    lemma_speed_round_trip(m.speed);
    lemma_track_round_trip(m.track_direction);
    lemma_altitude_round_trip(m.pressure_altitude);
    lemma_altitude_round_trip(m.geodetic_altitude);
    lemma_altitude_round_trip(m.height);
    lemma_timestamp_accuracy_round_trip(m.timestamp_accuracy);
}

/// Whether every number of a System report lies within what a message has a
/// place for: its radius below 2560 m, its altitudes from -1000 m to
/// 31767.5 m, its instant fewer than 2^32 seconds after the start of 2019,
/// and no classification but the undefined one outside European Union rules.
pub open spec fn system_in_range(m: System) -> bool {
    &&& m.area_radius < 2560
    &&& altitude_exact(m.area_ceiling as int)
    &&& altitude_exact(m.area_floor as int)
    &&& altitude_exact(m.operator_altitude as int)
    &&& m.classification_type != ClassificationType::EuropeanUnion ==> m.ua_classification
        == UaClassification::spec_undefined()
    &&& instant_exact(m.timestamp as int)
}

/// Of a System report within range, all that a message loses is the part of
/// the radius below 10 m.
pub proof fn lemma_system_within_step(m: System)
    requires
        system_in_range(m),
    ensures
        system_as_sent(m) == (System { area_radius: system_as_sent(m).area_radius, ..m }),
        0 <= m.area_radius - system_as_sent(m).area_radius < 10,
{
    lemma_radius_round_trip(m.area_radius);
    lemma_altitude_round_trip(m.area_ceiling);
    lemma_altitude_round_trip(m.area_floor);
    lemma_altitude_round_trip(m.operator_altitude);
    lemma_classification_round_trip(m.classification_type, m.ua_classification);
    lemma_instant_round_trip(m.timestamp);
}

/// Reading the message that was written for a Location gives what the wire
/// format carries of it.
pub proof fn lemma_location_decoding(m: Location)
    ensures
        location_bytes(m).len() == 25,
        location_bytes(m)[0] == header_of(crate::data::location::MESSAGE_TYPE),
        location_of(location_bytes(m)) == location_as_sent(m),
{
    lemma_location_flags(
        m.operational_status.code(),
        m.height_type.code(),
        track_segment(m.track_direction as int) as u8,
        speed_multiplier(m.speed as int) as u8,
    );
    lemma_track_round_trip(m.track_direction);
    lemma_speed_round_trip(m.speed);
    lemma_twos_complement_round_trip(m.vertical_speed as int);
    lemma_twos_complement_round_trip(m.latidute as int);
    lemma_twos_complement_round_trip(m.longitude as int);
    lemma_le_u32_round_trip(unsigned32(m.latidute as int));
    lemma_le_u32_round_trip(unsigned32(m.longitude as int));
    lemma_altitude_round_trip(m.pressure_altitude);
    lemma_altitude_round_trip(m.geodetic_altitude);
    lemma_altitude_round_trip(m.height);
    lemma_le_u16_round_trip(altitude_raw(m.pressure_altitude as int));
    lemma_le_u16_round_trip(altitude_raw(m.geodetic_altitude as int));
    lemma_le_u16_round_trip(altitude_raw(m.height as int));
    lemma_nibbles(m.vertical_accuracy.code(), m.horizontal_accuracy.code());
    lemma_nibbles(m.baro_altitude_accuracy.code(), m.speed_accuracy.code());
    lemma_le_u16_round_trip(m.timestamp as int);
    m.operational_status.lemma_code_round_trip();
    m.height_type.lemma_code_round_trip();
    m.vertical_accuracy.lemma_code_round_trip();
    m.horizontal_accuracy.lemma_code_round_trip();
    m.baro_altitude_accuracy.lemma_code_round_trip();
    m.speed_accuracy.lemma_code_round_trip();
}

/// Reading the message that was written for a System report gives what the
/// wire format carries of it, at an instant for which a UTC date-time exists.
pub proof fn lemma_system_decoding(m: System)
    ensures
        system_bytes(m).len() == 25,
        system_bytes(m)[0] == header_of(crate::data::system::MESSAGE_TYPE),
        system_of(system_bytes(m)) == system_as_sent(m),
        utc_representable(instant_of(le_u32_at(system_bytes(m), 20))),
{
    lemma_system_flags(m.classification_type.code(), m.operator_location_type.code());
    lemma_twos_complement_round_trip(m.operator_latidute as int);
    lemma_twos_complement_round_trip(m.operator_longitude as int);
    lemma_le_u32_round_trip(unsigned32(m.operator_latidute as int));
    lemma_le_u32_round_trip(unsigned32(m.operator_longitude as int));
    lemma_le_u16_round_trip(m.area_count as int);
    lemma_radius_round_trip(m.area_radius);
    lemma_altitude_round_trip(m.area_ceiling);
    lemma_altitude_round_trip(m.area_floor);
    lemma_altitude_round_trip(m.operator_altitude);
    lemma_le_u16_round_trip(altitude_raw(m.area_ceiling as int));
    lemma_le_u16_round_trip(altitude_raw(m.area_floor as int));
    lemma_le_u16_round_trip(altitude_raw(m.operator_altitude as int));
    lemma_instant_round_trip(m.timestamp);
    lemma_le_u32_round_trip(instant_raw(m.timestamp as int));
    m.classification_type.lemma_code_round_trip();
    m.operator_location_type.lemma_code_round_trip();
}

/// Reading the message that was written for a Basic ID gives the Basic ID.
pub proof fn lemma_basic_id_decoding(m: BasicIdView)
    requires
        m.uas_id.len() == 20,
    ensures
        basic_id_bytes(m).len() == 25,
        basic_id_bytes(m)[0] == header_of(crate::data::basic_id::MESSAGE_TYPE),
        basic_id_of(basic_id_bytes(m)) == m,
{
    lemma_nibbles(m.id_type.code(), m.ua_type.code());
    m.id_type.lemma_code_round_trip();
    m.ua_type.lemma_code_round_trip();
    assert(basic_id_bytes(m).subrange(2, 22) =~= m.uas_id);
}

/// Reading the message that was written for an Operator ID gives the
/// Operator ID, with the kind of identifier that its byte stands for.
pub proof fn lemma_operator_id_decoding(m: OperatorIdView)
    requires
        m.operator_id.len() == 20,
    ensures
        operator_id_bytes(m).len() == 25,
        operator_id_bytes(m)[0] == header_of(crate::data::operator_id::MESSAGE_TYPE),
        operator_id_of(operator_id_bytes(m)) == (OperatorIdView {
            id_type: OperatorIdType::of_code(m.id_type.code()),
            operator_id: m.operator_id,
        }),
{
    assert(operator_id_bytes(m).subrange(2, 22) =~= m.operator_id);
}

/// Reading the message buffer that was written for a message gives what the
/// wire format carries of the message.
pub proof fn lemma_message_decoding(m: MessageView)
    requires
        well_formed(m),
    ensures
        message_bytes(m).len() == 25,
        message_decoded(message_bytes(m)) == Ok::<Option<MessageView>, DecodeError>(
            Some(as_sent(m)),
        ),
{
    match m {
        MessageView::BasicID(basic_id) => {
            lemma_header(crate::data::basic_id::MESSAGE_TYPE);
            lemma_basic_id_decoding(basic_id);
        },
        MessageView::Location(location) => {
            lemma_header(crate::data::location::MESSAGE_TYPE);
            lemma_location_decoding(location);
        },
        MessageView::System(system) => {
            lemma_header(crate::data::system::MESSAGE_TYPE);
            lemma_system_decoding(system);
        },
        MessageView::OperatorId(operator_id) => {
            lemma_header(crate::data::operator_id::MESSAGE_TYPE);
            lemma_operator_id_decoding(operator_id);
        },
        MessageView::SelfId(_) => {},
    }
}

/// Reading the service data that was written for a message gives what the
/// wire format carries of the message, whatever the message counter.
pub proof fn lemma_decoding_of_encoded(m: MessageView, message_counter: u8)
    requires
        well_formed(m),
    ensures
        service_data_bytes(m, message_counter).len() == 27,
        service_data_decoded(service_data_bytes(m, message_counter)) == Ok::<
            Option<MessageView>,
            DecodeError,
        >(Some(as_sent(m))),
{
    lemma_message_decoding(m);
    let data = service_data_bytes(m, message_counter);
    assert(data.subrange(2, data.len() as int) =~= message_bytes(m));
}

/// A message that is carried exactly, written as service data with any
/// message counter, is read back as it was; and a message that is read back
/// as it was is carried exactly.
pub proof fn lemma_round_trip(m: MessageView, message_counter: u8)
    requires
        well_formed(m),
    ensures
        service_data_decoded(service_data_bytes(m, message_counter)) == Ok::<
            Option<MessageView>,
            DecodeError,
        >(Some(m)) <==> carried_exactly(m),
{
    lemma_decoding_of_encoded(m, message_counter);
    lemma_exact_is_unchanged(m);
}

/// Service data that starts with any byte but the Open Drone ID code decodes
/// to no message, whatever follows.
pub proof fn lemma_header_rejection(data: Seq<u8>)
    requires
        data.len() >= 1,
        data[0] != OPEN_DRONE_ID_AD_CODE,
    ensures
        service_data_decoded(data) == Ok::<Option<MessageView>, DecodeError>(None),
{
}

/// How the decoding of a whole frame ends is decided by the kind that its
/// message names, and by nothing else: a Basic ID, a Location, a System
/// report or an Operator ID is decoded, whatever its bytes are; a Self ID,
/// an Authentication or a Message Pack is refused as unsupported; any other
/// kind gives no message.
pub proof fn lemma_frame_outcome(data: Seq<u8>)
    requires
        data.len() >= 27,
        data[0] == OPEN_DRONE_ID_AD_CODE,
    ensures
        match MessageType::of_code(bits_of(data[2], 7, 4)) {
            MessageType::BasicId => service_data_decoded(data) matches Ok(Some(m)) && m is BasicID,
            MessageType::Location => service_data_decoded(data) matches Ok(Some(m))
                && m is Location,
            MessageType::System => service_data_decoded(data) matches Ok(Some(m)) && m is System,
            MessageType::OperatorId => service_data_decoded(data) matches Ok(Some(m))
                && m is OperatorId,
            MessageType::Selfid => service_data_decoded(data) == Err::<
                Option<MessageView>,
                DecodeError,
            >(DecodeError::Unsupported(MessageType::Selfid)),
            MessageType::Auth => service_data_decoded(data) == Err::<
                Option<MessageView>,
                DecodeError,
            >(DecodeError::Unsupported(MessageType::Auth)),
            MessageType::MessagePack => service_data_decoded(data) == Err::<
                Option<MessageView>,
                DecodeError,
            >(DecodeError::Unsupported(MessageType::MessagePack)),
            MessageType::Invalid => service_data_decoded(data) == Ok::<
                Option<MessageView>,
                DecodeError,
            >(None),
        },
{
    let buf = data.subrange(2, data.len() as int);
    assert(buf[0] == data[2]);
    assert(buf.len() >= 25);
}

/// Every byte stands for a variant of every enumerated field, and a byte to
/// which the standard gives no meaning stands for the field's fallback
/// variant.
pub proof fn lemma_enum_fallback(value: u8)
    ensures
        value > 4 ==> IdType::of_code(value) == IdType::NotDeclared,
        value > 14 ==> UAType::of_code(value) == UAType::Other,
        value > 4 ==> OperationalStatus::of_code(value) == OperationalStatus::Undeclared,
        value > 1 ==> HeightType::of_code(value) == HeightType::AboveTakeoff,
        value > 12 ==> HorizontalAccuracy::of_code(value) == HorizontalAccuracy::Unknown,
        value > 6 ==> VerticalAccuracy::of_code(value) == VerticalAccuracy::Unknown,
        value > 4 ==> SpeedAccuracy::of_code(value) == SpeedAccuracy::Unknown,
        value > 1 ==> ClassificationType::of_code(value) == ClassificationType::Undeclared,
        value > 2 ==> OperatorLocationType::of_code(value) == OperatorLocationType::TakeOff,
        value > 3 ==> UaCategory::of_code(value) == UaCategory::Undefined,
        value > 7 ==> UaClass::of_code(value) == UaClass::Undefined,
        value > 0 ==> OperatorIdType::of_code(value) == OperatorIdType::Unknown(value),
        value > 5 && value != 15 ==> MessageType::of_code(value) == MessageType::Invalid,
{
}

/// What a frame decodes to is carried exactly, and so is read back as it is
/// after it has been written again. The one exception is a Location whose
/// speed was sent with the multiplier flag and a byte below 22: such a speed
/// is at most 63.75 m/s, is written without the flag, and is no multiple of
/// 0.25 m/s.
pub proof fn lemma_decoded_is_carried_exactly(data: Seq<u8>, m: MessageView)
    requires
        service_data_decoded(data) == Ok::<Option<MessageView>, DecodeError>(Some(m)),
        m is Location ==> speed_exact(m->Location_0.speed as int),
    ensures
        carried_exactly(m),
{
    let buf = data.subrange(2, data.len() as int);
    match m {
        MessageView::BasicID(basic_id) => {},
        MessageView::Location(location) => {
            crate::codec::lemma_bit_ranges(buf[1]);
            crate::codec::lemma_bit_ranges(buf[23]);
        },
        MessageView::System(system) => {},
        MessageView::OperatorId(operator_id) => {},
        MessageView::SelfId(_) => {},
    }
}

} // verus!
