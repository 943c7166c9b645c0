use chrono::DateTime;
use opendroneid::codec::copy_to_id;
use opendroneid::codec::decode::{from_message_buffer, from_service_data};
use opendroneid::codec::encode;
use opendroneid::codec::encode::{to_message_buffer, to_service_data};
use opendroneid::data::basic_id::{BasicId, IdType, UAType};
use opendroneid::data::location::{
    HeightType, HorizontalAccuracy, Location, OperationalStatus, SpeedAccuracy, VerticalAccuracy,
};
use opendroneid::data::operator_id::{OperatorId, OperatorIdType};
use opendroneid::data::system::{
    ClassificationType, OperatorLocationType, System, UaCategory, UaClass, UaClassification,
};
use opendroneid::data::RemoteIDMessage;

/// A coordinate in degrees, counted in ten-millionths of a degree.
fn coordinate(degrees: f32) -> i32 {
    (degrees * 10000000.) as i32
}

/// An altitude in metres, counted in half metres.
fn altitude(metres: f32) -> i32 {
    (metres / 0.5) as i32
}

/// A speed in metres per second, counted in sixteenths.
fn speed(metres_per_second: f32) -> u16 {
    (metres_per_second * 16.) as u16
}

/// A vertical speed in metres per second, counted in halves.
fn vertical_speed(metres_per_second: f32) -> i8 {
    (metres_per_second / 0.5) as i8
}

/// A time in seconds, counted in tenths of a second.
fn tenths(seconds: f32) -> u16 {
    (seconds * 10.) as u16
}

fn a_location() -> Location {
    Location {
        height_type: HeightType::AboveTakeoff,
        operational_status: OperationalStatus::RemoteIdSystemFailure,
        speed: speed(10.),
        vertical_speed: vertical_speed(10.),
        pressure_altitude: altitude(190.5),
        geodetic_altitude: altitude(210.0),
        baro_altitude_accuracy: VerticalAccuracy::Unknown,
        horizontal_accuracy: HorizontalAccuracy::LessThan_3_m,
        speed_accuracy: SpeedAccuracy::LessThan_third_mps,
        vertical_accuracy: VerticalAccuracy::LessThan_3_m,
        track_direction: 77,
        latidute: coordinate(49.874855),
        longitude: coordinate(8.912173),
        height: altitude(0.),
        timestamp: tenths(361.0),
        timestamp_accuracy: None,
    }
}

fn a_system() -> System {
    System {
        classification_type: ClassificationType::EuropeanUnion,
        operator_location_type: OperatorLocationType::TakeOff,
        operator_latidute: coordinate(49.874855),
        operator_longitude: coordinate(8.912173),
        operator_altitude: altitude(210.),
        area_ceiling: altitude(-1000.),
        area_count: 1,
        area_floor: altitude(-1000.),
        area_radius: 250,
        ua_classification: UaClassification {
            category: UaCategory::Open,
            class: UaClass::Undefined,
        },
        timestamp: DateTime::parse_from_rfc3339(&"2024-07-04T14:05:54Z")
            .unwrap()
            .to_utc()
            .timestamp(),
    }
}

#[test]
fn encode_basic_id() {
    // DroneTag Mini
    let basic_id = RemoteIDMessage::BasicID(BasicId {
        id_type: IdType::SerialNumber,
        ua_type: UAType::NotDeclared,
        uas_id: copy_to_id("1596F359746167260749".as_bytes()),
    });

    let service_data = [
        13, 1, 2, 16, 49, 53, 57, 54, 70, 51, 53, 57, 55, 52, 54, 49, 54, 55, 50, 54, 48, 55, 52,
        57, 0, 0, 0,
    ];

    assert_eq!(service_data, to_service_data(&basic_id, 1));
}

#[test]
fn encode_basic_id_2() {
    // DroneTag BS
    let basic_id = RemoteIDMessage::BasicID(BasicId {
        id_type: IdType::SerialNumber,
        ua_type: UAType::NotDeclared,
        uas_id: copy_to_id("1596F3170CE908F55122".as_bytes()),
    });

    let expected = [
        13, 1, 2, 16, 49, 53, 57, 54, 70, 51, 49, 55, 48, 67, 69, 57, 48, 56, 70, 53, 53, 49, 50,
        50, 0, 0, 0,
    ];

    assert_eq!(expected, to_service_data(&basic_id, 1));
}

#[test]
fn encode_location_1() {
    let location = RemoteIDMessage::Location(Location {
        height_type: HeightType::AboveTakeoff,
        operational_status: OperationalStatus::RemoteIdSystemFailure,
        speed: speed(10.),
        vertical_speed: vertical_speed(10.),
        pressure_altitude: altitude(190.5),
        geodetic_altitude: altitude(210.0),
        baro_altitude_accuracy: VerticalAccuracy::Unknown,
        horizontal_accuracy: HorizontalAccuracy::LessThan_3_m,
        speed_accuracy: SpeedAccuracy::LessThan_third_mps,
        vertical_accuracy: VerticalAccuracy::LessThan_3_m,
        track_direction: 77,
        latidute: coordinate(49.874855),
        longitude: coordinate(8.912173),
        height: altitude(0.),
        timestamp: tenths(361.0),
        timestamp_accuracy: None,
    });
    // The status 4 stands in bits 7..4 of the flags, which makes 64, and
    // 10 m/s are 40 steps of 0.25 m/s.
    let expected = [
        13, 1, 18, 64, 77, 40, 20, 128, 76, 186, 29, 200, 227, 79, 5, 77, 9, 116, 9, 208, 7, 91,
        4, 26, 14, 0, 0,
    ];
    assert_eq!(expected, to_service_data(&location, 1));
}

#[test]
fn encode_system() {
    let system = RemoteIDMessage::System(System {
        classification_type: ClassificationType::EuropeanUnion,
        operator_location_type: OperatorLocationType::TakeOff,
        operator_latidute: coordinate(49.874855),
        operator_longitude: coordinate(8.912173),
        operator_altitude: altitude(210.),
        area_ceiling: altitude(-1000.),
        area_count: 1,
        area_floor: altitude(-1000.),
        area_radius: 250,
        ua_classification: UaClassification {
            category: UaCategory::Open,
            class: UaClass::Undefined,
        },
        timestamp: DateTime::parse_from_rfc3339(&"2024-07-04T14:05:54Z")
            .unwrap()
            .to_utc()
            .timestamp(),
    });

    let service_data = [
        13, 3, 66, 4, 128, 76, 186, 29, 200, 227, 79, 5, 1, 0, 25, 0, 0, 0, 0, 16, 116, 9, 194,
        254, 91, 10, 0,
    ];
    assert_eq!(service_data, to_service_data(&system, 3));
}

#[test]
fn encode_operator_id_writes_kind_and_identifier() {
    let operator_id = OperatorId {
        id_type: OperatorIdType::OperatorId,
        operator_id: copy_to_id("FIN87astrdge12k8".as_bytes()),
    };
    let expected = [
        13, 3, 82, 0, 70, 73, 78, 56, 55, 97, 115, 116, 114, 100, 103, 101, 49, 50, 107, 56, 0, 0,
        0, 0, 0, 0, 0,
    ];
    assert_eq!(expected, to_service_data(&RemoteIDMessage::OperatorId(operator_id), 3));
    assert_eq!(&expected[2..], &encode::encode_operator_id(&operator_id)[..]);

    let private = OperatorId { id_type: OperatorIdType::Unknown(201), operator_id: [7; 20] };
    let message = encode::encode_operator_id(&private);
    assert_eq!(message[0], 0x52);
    assert_eq!(message[1], 201);
    assert_eq!(&message[2..22], &[7u8; 20][..]);
    assert_eq!(&message[22..], &[0u8, 0, 0][..]);
}

#[test]
fn every_message_starts_with_its_kind_and_version_two() {
    let basic_id =
        BasicId { id_type: IdType::UtmAssignedId, ua_type: UAType::Other, uas_id: [1; 20] };
    assert_eq!(encode::encode_basic_id(&basic_id)[0], 0x02);
    assert_eq!(encode::encode_basic_id(&basic_id)[1], 0x3F);
    assert_eq!(encode::encode_location(&a_location())[0], 0x12);
    assert_eq!(encode::encode_system(&a_system())[0], 0x42);
    let operator_id = OperatorId { id_type: OperatorIdType::OperatorId, operator_id: [0; 20] };
    assert_eq!(encode::encode_operator_id(&operator_id)[0], 0x52);
}

#[test]
fn service_data_is_code_counter_and_message() {
    let message = RemoteIDMessage::Location(a_location());
    for counter in [0u8, 1, 72, 255] {
        let data = to_service_data(&message, counter);
        assert_eq!(data[0], 0x0D);
        assert_eq!(data[1], counter);
        assert_eq!(&data[2..], &to_message_buffer(&message)[..]);
        assert_eq!(&data[2..], &encode::encode_location(&a_location())[..]);
    }
}

#[test]
fn location_flags_hold_status_height_segment_and_multiplier() {
    let mut location = a_location();
    location.operational_status = OperationalStatus::Airborne;
    location.height_type = HeightType::AboveGroundLevel;
    location.track_direction = 337;
    location.speed = 1021;
    let message = encode::encode_location(&location);
    assert_eq!(message[1], 0b0010_0111);
    assert_eq!(message[2], 157);
    location.track_direction = 180;
    let message = encode::encode_location(&location);
    assert_eq!(message[1] & 2, 2);
    assert_eq!(message[2], 0);
    location.track_direction = 179;
    let message = encode::encode_location(&location);
    assert_eq!(message[1] & 2, 0);
    assert_eq!(message[2], 179);
}

#[test]
fn location_negative_values_are_twos_complement() {
    let mut location = a_location();
    location.vertical_speed = -2;
    location.latidute = -498748559;
    location.longitude = -1;
    let message = encode::encode_location(&location);
    assert_eq!(message[4], 0xFE);
    assert_eq!(&message[5..9], &(-498748559i32).to_le_bytes()[..]);
    assert_eq!(&message[9..13], &[0xFFu8; 4][..]);
}

#[test]
fn location_timestamp_accuracy_is_written_as_given() {
    let mut location = a_location();
    location.timestamp_accuracy = Some(15);
    assert_eq!(encode::encode_location(&location)[23], 15);
    location.timestamp_accuracy = Some(1);
    assert_eq!(encode::encode_location(&location)[23], 1);
    location.timestamp_accuracy = None;
    assert_eq!(encode::encode_location(&location)[23], 0);
}

#[test]
fn system_classification_is_zero_outside_european_rules() {
    let mut system = a_system();
    system.ua_classification =
        UaClassification { category: UaCategory::Certified, class: UaClass::Class6 };
    assert_eq!(encode::encode_system(&system)[17], 0x37);
    system.classification_type = ClassificationType::Undeclared;
    assert_eq!(encode::encode_system(&system)[17], 0);
    assert_eq!(encode::encode_system(&system)[1], 0);
    system.operator_location_type = OperatorLocationType::Fixed;
    assert_eq!(encode::encode_system(&system)[1], 2);
}

#[test]
fn system_timestamp_keeps_the_low_32_bits() {
    let mut system = a_system();
    system.timestamp = 1546300800;
    assert_eq!(&encode::encode_system(&system)[20..24], &[0u8, 0, 0, 0][..]);
    system.timestamp = 1546300800 + 0xFFFF_FFFF;
    assert_eq!(&encode::encode_system(&system)[20..24], &[0xFFu8; 4][..]);
    system.timestamp = 1546300800 + 0x1_0000_0001;
    assert_eq!(&encode::encode_system(&system)[20..24], &[1u8, 0, 0, 0][..]);
    system.timestamp = 1546300800 - 1;
    assert_eq!(&encode::encode_system(&system)[20..24], &[0xFFu8; 4][..]);
    system.timestamp = 0;
    assert_eq!(
        &encode::encode_system(&system)[20..24],
        &((0i64 - 1546300800) as u32).to_le_bytes()[..]
    );
    system.timestamp = i64::MIN;
    assert_eq!(
        &encode::encode_system(&system)[20..24],
        &(i64::MIN.wrapping_sub(1546300800) as u32).to_le_bytes()[..]
    );
    system.timestamp = i64::MAX;
    assert_eq!(
        &encode::encode_system(&system)[20..24],
        &((i64::MAX - 1546300800) as u32).to_le_bytes()[..]
    );
}

#[test]
fn basic_id_round_trip() {
    for (id_type, ua_type) in [
        (IdType::NotDeclared, UAType::NotDeclared),
        (IdType::SerialNumber, UAType::HelicopterOrMultirotor),
        (IdType::CaaRegistrationId, UAType::Glider),
        (IdType::UtmAssignedId, UAType::GroundObstacle),
        (IdType::SpecificSessionId, UAType::Other),
    ] {
        let message = RemoteIDMessage::BasicID(BasicId {
            id_type,
            ua_type,
            uas_id: copy_to_id("1596F359746167260749".as_bytes()),
        });
        for counter in [0u8, 9, 255] {
            let data = to_service_data(&message, counter);
            assert_eq!(from_service_data(&data), Ok(Some(message.clone())));
        }
    }
}

#[test]
fn operator_id_round_trip() {
    let kinds =
        [OperatorIdType::OperatorId, OperatorIdType::Unknown(1), OperatorIdType::Unknown(255)];
    for id_type in kinds {
        let message =
            RemoteIDMessage::OperatorId(OperatorId { id_type, operator_id: copy_to_id(b"NULL") });
        let data = to_service_data(&message, 4);
        assert_eq!(from_service_data(&data), Ok(Some(message)));
    }
    // The byte of `Unknown(0)` is the byte of `OperatorId`.
    let message = RemoteIDMessage::OperatorId(OperatorId {
        id_type: OperatorIdType::Unknown(0),
        operator_id: [0; 20],
    });
    let expected = RemoteIDMessage::OperatorId(OperatorId {
        id_type: OperatorIdType::OperatorId,
        operator_id: [0; 20],
    });
    assert_eq!(from_service_data(&to_service_data(&message, 4)), Ok(Some(expected)));
}

#[test]
fn location_round_trip() {
    let mut location = a_location();
    let message = RemoteIDMessage::Location(location.clone());
    assert_eq!(from_service_data(&to_service_data(&message, 1)), Ok(Some(message)));

    location.operational_status = OperationalStatus::Emergency;
    location.height_type = HeightType::AboveGroundLevel;
    location.speed = 12 * 255 + 765;
    location.vertical_speed = -128;
    location.track_direction = 359;
    location.latidute = i32::MIN;
    location.longitude = i32::MAX;
    location.pressure_altitude = -2000;
    location.geodetic_altitude = 63535;
    location.height = -1;
    location.horizontal_accuracy = HorizontalAccuracy::LessThan_1_m;
    location.vertical_accuracy = VerticalAccuracy::LessThan_1_m;
    location.baro_altitude_accuracy = VerticalAccuracy::LessThan_150_m;
    location.speed_accuracy = SpeedAccuracy::LessThan_10_mps;
    location.timestamp = 35999;
    location.timestamp_accuracy = Some(15);
    let message = RemoteIDMessage::Location(location);
    let data = to_service_data(&message, 200);
    assert_eq!(from_service_data(&data), Ok(Some(message.clone())));
    assert_eq!(from_message_buffer(&to_message_buffer(&message)), Ok(Some(message)));
}

#[test]
fn system_round_trip() {
    let system = a_system();
    let message = RemoteIDMessage::System(system.clone());
    let decoded = from_service_data(&to_service_data(&message, 3));
    assert_eq!(decoded, Ok(Some(message)));

    // The same, in the units and within the steps of the wire format.
    let decoded = match decoded {
        Ok(Some(RemoteIDMessage::System(decoded))) => decoded,
        other => panic!("not a system report: {:?}", other),
    };
    assert!((decoded.operator_latidute as f32 / 10000000. - 49.874855).abs() < 1e-5);
    assert!((decoded.operator_longitude as f32 / 10000000. - 8.912173).abs() < 1e-5);
    assert!((decoded.operator_altitude as f32 / 2. - 210.).abs() <= 0.5);
    assert_eq!(
        DateTime::from_timestamp(decoded.timestamp, 0).unwrap(),
        DateTime::parse_from_rfc3339("2024-07-04T14:05:54Z").unwrap().to_utc()
    );
    assert_eq!(decoded.ua_classification.category, UaCategory::Open);
    assert_eq!(decoded.ua_classification.class, UaClass::Undefined);

    let other = System {
        classification_type: ClassificationType::Undeclared,
        operator_location_type: OperatorLocationType::Fixed,
        operator_latidute: -1,
        operator_longitude: i32::MIN,
        operator_altitude: 63535,
        area_ceiling: 0,
        area_count: 65535,
        area_floor: -2000,
        area_radius: 2550,
        ua_classification: UaClassification::undefined(),
        timestamp: 1546300800 + 0xFFFF_FFFF,
    };
    let message = RemoteIDMessage::System(other);
    assert_eq!(from_service_data(&to_service_data(&message, 0)), Ok(Some(message)));
}

#[test]
fn what_the_wire_cannot_carry_is_cut_to_what_it_can() {
    let mut location = a_location();
    location.speed = 163;
    location.track_direction = 436;
    location.pressure_altitude = -2001;
    location.geodetic_altitude = 63536;
    location.timestamp_accuracy = Some(0);
    let decoded = match from_service_data(&to_service_data(&RemoteIDMessage::Location(location), 0))
    {
        Ok(Some(RemoteIDMessage::Location(decoded))) => decoded,
        other => panic!("not a location: {:?}", other),
    };
    assert_eq!(decoded.speed, 160);
    assert_eq!(decoded.track_direction, 180);
    assert_eq!(decoded.pressure_altitude, -2000);
    assert_eq!(decoded.geodetic_altitude, 63535);
    assert_eq!(decoded.timestamp_accuracy, None);

    let mut system = a_system();
    system.area_radius = 2559;
    system.classification_type = ClassificationType::Undeclared;
    let decoded = match from_service_data(&to_service_data(&RemoteIDMessage::System(system), 0)) {
        Ok(Some(RemoteIDMessage::System(decoded))) => decoded,
        other => panic!("not a system report: {:?}", other),
    };
    assert_eq!(decoded.area_radius, 2550);
    assert_eq!(decoded.ua_classification, UaClassification::undefined());
}

#[test]
fn decoded_frames_are_written_back_byte_for_byte() {
    let frames: [[u8; 27]; 3] = [
        [
            13, 1, 2, 16, 49, 48, 48, 48, 48, 48, 48, 48, 48, 48, 48, 48, 48, 48, 48, 48, 48, 48,
            48, 57, 0, 0, 0,
        ],
        [
            13, 72, 18, 34, 157, 0, 0, 143, 76, 186, 29, 192, 227, 79, 5, 77, 9, 116, 9, 208, 7,
            91, 4, 26, 14, 0, 0,
        ],
        [
            13, 3, 66, 4, 131, 76, 186, 29, 188, 227, 79, 5, 1, 0, 25, 0, 0, 0, 0, 16, 116, 9,
            194, 254, 91, 10, 0,
        ],
    ];
    for frame in frames {
        let message = from_service_data(&frame).unwrap().unwrap();
        assert_eq!(to_service_data(&message, frame[1]), frame);
    }
}
