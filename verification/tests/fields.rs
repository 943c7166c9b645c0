use chrono::{DateTime, Utc};
use opendroneid::codec::fields::{
    decode_altitude, decode_classification, decode_coordinate, decode_radius, decode_speed,
    decode_timestamp, decode_timestamp_accuracy, decode_track, encode_altitude,
    encode_classification, encode_coordinate, encode_radius, encode_speed, encode_timestamp,
    encode_timestamp_accuracy, encode_track, utc_timestamp, MAX_UTC_SECONDS, MIN_UTC_SECONDS,
    TIMESTAMP_EPOCH,
};
use opendroneid::data::basic_id::{IdType, UAType};
use opendroneid::data::location::{
    HeightType, HorizontalAccuracy, OperationalStatus, SpeedAccuracy, VerticalAccuracy,
};
use opendroneid::data::operator_id::OperatorIdType;
use opendroneid::data::system::{
    ClassificationType, OperatorLocationType, UaCategory, UaClass, UaClassification,
};

#[test]
fn speed_without_multiplier_counts_quarters() {
    // raw * 0.25 m/s, in sixteenths
    assert_eq!(decode_speed(0, 0), 0);
    assert_eq!(decode_speed(0, 1), 4);
    assert_eq!(decode_speed(0, 21), 84);
    assert_eq!(decode_speed(0, 255), 1020);
    assert_eq!(decode_speed(0, 255) as f32 / 16., 63.75);
}

#[test]
fn speed_with_multiplier_adds_before_it_scales() {
    // (raw + 255 * 0.25) * 0.75 m/s, in sixteenths
    assert_eq!(decode_speed(1, 0), 765);
    assert_eq!(decode_speed(1, 0) as f32 / 16., (0. + 255. * 0.25) * 0.75);
    assert_eq!(decode_speed(1, 22), 1029);
    assert_eq!(decode_speed(1, 100), 1965);
    assert_eq!(decode_speed(1, 100) as f32 / 16., (100. + 255. * 0.25) * 0.75);
    assert_eq!(decode_speed(1, 255), 3825);
    assert_eq!(decode_speed(1, 255) as f32 / 16., (255. + 255. * 0.25) * 0.75);
}

#[test]
fn speed_branches_meet_at_the_boundary() {
    // At and just below 63.75 m/s the linear branch is used.
    assert_eq!(encode_speed(1020), (0, 255));
    assert_eq!(encode_speed(1019), (0, 254));
    assert_eq!(encode_speed(1016), (0, 254));
    assert_eq!(encode_speed(160), (0, 40));
    assert_eq!(encode_speed(0), (0, 0));
    // Just above it the multiplier branch is.
    assert_eq!(encode_speed(1021), (1, 21));
    assert_eq!(encode_speed(1029), (1, 22));
    // Below 254.25 m/s the byte stops at 255, from there on it is 254.
    assert_eq!(encode_speed(3825), (1, 255));
    assert_eq!(encode_speed(4067), (1, 255));
    assert_eq!(encode_speed(4068), (1, 254));
    assert_eq!(encode_speed(u16::MAX), (1, 254));
}

#[test]
fn speed_bytes_round_trip_in_both_directions() {
    for raw in 0..=255u8 {
        assert_eq!(encode_speed(decode_speed(0, raw)), (0, raw));
        if raw >= 22 {
            assert_eq!(encode_speed(decode_speed(1, raw)), (1, raw));
        } else {
            assert_eq!(encode_speed(decode_speed(1, raw)).0, 0);
        }
    }
    // The highest byte with the multiplier flag comes back as it went.
    let (multiplier, raw) = encode_speed(decode_speed(1, 255));
    assert_eq!((multiplier, raw), (1, 255));
    assert_eq!(decode_speed(multiplier, raw), 3825);
}

#[test]
fn speeds_on_the_grid_are_read_back() {
    for speed in 0..=u16::MAX {
        let (multiplier, raw) = encode_speed(speed);
        let exact = (speed <= 1020 && speed % 4 == 0)
            || (speed > 1020 && speed <= 3825 && (speed - 765) % 12 == 0);
        assert_eq!(decode_speed(multiplier, raw) == speed, exact);
    }
}

#[test]
fn track_direction_uses_the_segment_flag_from_180_degrees() {
    assert_eq!(decode_track(0, 0), 0);
    assert_eq!(decode_track(0, 179), 179);
    assert_eq!(decode_track(1, 0), 180);
    assert_eq!(decode_track(1, 157), 337);
    assert_eq!(decode_track(1, 179), 359);
    assert_eq!(decode_track(1, 255), 435);
    assert_eq!(encode_track(0), (0, 0));
    assert_eq!(encode_track(77), (0, 77));
    assert_eq!(encode_track(179), (0, 179));
    assert_eq!(encode_track(180), (1, 0));
    assert_eq!(encode_track(337), (1, 157));
    assert_eq!(encode_track(359), (1, 179));
    assert_eq!(encode_track(435), (1, 255));
    assert_eq!(encode_track(436), (1, 0));
    for track in 0..=435u16 {
        let (segment, raw) = encode_track(track);
        assert_eq!(decode_track(segment, raw), track);
    }
}

#[test]
fn altitude_is_half_metres_from_minus_1000() {
    assert_eq!(decode_altitude(0), -2000);
    assert_eq!(decode_altitude(2000), 0);
    assert_eq!(decode_altitude(2381), 381);
    assert_eq!(decode_altitude(2381) as f32 * 0.5, 2381. * 0.5 - 1000.);
    assert_eq!(decode_altitude(65535), 63535);
    assert_eq!(decode_altitude(65535) as f32 * 0.5, 31767.5);
    assert_eq!(encode_altitude(381), 2381);
    assert_eq!(encode_altitude(0), 2000);
    assert_eq!(encode_altitude(-2000), 0);
    assert_eq!(encode_altitude(63535), 65535);
}

#[test]
fn altitude_outside_the_range_is_sent_as_the_nearest_end() {
    assert_eq!(encode_altitude(-2001), 0);
    assert_eq!(encode_altitude(i32::MIN), 0);
    assert_eq!(encode_altitude(63536), 65535);
    assert_eq!(encode_altitude(i32::MAX), 65535);
    for raw in [0u16, 1, 1999, 2000, 2001, 40000, 65534, 65535] {
        assert_eq!(encode_altitude(decode_altitude(raw)), raw);
    }
}

#[test]
fn radius_counts_tens_of_metres() {
    assert_eq!(decode_radius(0), 0);
    assert_eq!(decode_radius(25), 250);
    assert_eq!(decode_radius(255), 2550);
    assert_eq!(encode_radius(250), 25);
    assert_eq!(encode_radius(259), 25);
    assert_eq!(encode_radius(9), 0);
    assert_eq!(encode_radius(2550), 255);
    assert_eq!(encode_radius(2560), 255);
    assert_eq!(encode_radius(u16::MAX), 255);
}

#[test]
fn timestamp_accuracy_zero_is_absent() {
    assert_eq!(decode_timestamp_accuracy(0), None);
    assert_eq!(decode_timestamp_accuracy(1), Some(1));
    assert_eq!(decode_timestamp_accuracy(15), Some(15));
    assert_eq!(encode_timestamp_accuracy(None), 0);
    assert_eq!(encode_timestamp_accuracy(Some(1)), 1);
    assert_eq!(encode_timestamp_accuracy(Some(15)), 15);
    assert_eq!(encode_timestamp_accuracy(Some(200)), 200);
}

#[test]
fn coordinates_are_signed_ten_millionths() {
    assert_eq!(decode_coordinate([143, 76, 186, 29]), 498748559);
    assert_eq!(decode_coordinate([0xFF, 0xFF, 0xFF, 0xFF]), -1);
    assert_eq!(decode_coordinate([0, 0, 0, 0x80]), i32::MIN);
    assert_eq!(encode_coordinate(498748544), [128, 76, 186, 29]);
    assert_eq!(encode_coordinate(-1), [0xFF; 4]);
    for v in [i32::MIN, -900000000, -1, 0, 1, 89121736, i32::MAX] {
        assert_eq!(encode_coordinate(v), v.to_le_bytes());
        assert_eq!(decode_coordinate(v.to_le_bytes()), v);
    }
}

#[test]
fn classification_byte_holds_category_and_class() {
    let eu = ClassificationType::EuropeanUnion;
    assert_eq!(
        decode_classification(eu, 0x10),
        UaClassification { category: UaCategory::Open, class: UaClass::Undefined }
    );
    assert_eq!(
        decode_classification(eu, 0x37),
        UaClassification { category: UaCategory::Certified, class: UaClass::Class6 }
    );
    // Bits 7 and 3 belong to neither number.
    assert_eq!(
        decode_classification(eu, 0xAC),
        UaClassification { category: UaCategory::Specific, class: UaClass::Class3 }
    );
    // Categories 4 to 7 have no meaning.
    assert_eq!(
        decode_classification(eu, 0x41),
        UaClassification { category: UaCategory::Undefined, class: UaClass::Class0 }
    );
    assert_eq!(
        decode_classification(ClassificationType::Undeclared, 0x37),
        UaClassification::undefined()
    );
    let open = UaClassification { category: UaCategory::Open, class: UaClass::Undefined };
    assert_eq!(encode_classification(eu, &open), 16);
    assert_eq!(encode_classification(ClassificationType::Undeclared, &open), 0);
    let categories =
        [UaCategory::Undefined, UaCategory::Open, UaCategory::Specific, UaCategory::Certified];
    for category in categories {
        for class in [UaClass::Undefined, UaClass::Class0, UaClass::Class3, UaClass::Class6] {
            let classification = UaClassification { category, class };
            let byte = encode_classification(eu, &classification);
            assert_eq!(decode_classification(eu, byte), classification);
        }
    }
}

#[test]
fn system_timestamp_counts_seconds_from_2019() {
    assert_eq!(TIMESTAMP_EPOCH, 1546300800);
    assert_eq!(
        DateTime::from_timestamp(TIMESTAMP_EPOCH, 0).unwrap(),
        DateTime::parse_from_rfc3339("2019-01-01T00:00:00Z").unwrap().to_utc()
    );
    assert_eq!(decode_timestamp(0), Some(1546300800));
    assert_eq!(decode_timestamp(173801154), Some(1720101954));
    assert_eq!(decode_timestamp(u32::MAX), Some(1546300800 + 4294967295));
    assert_eq!(encode_timestamp(1720101954), 173801154);
    assert_eq!(encode_timestamp(1546300800), 0);
    assert_eq!(encode_timestamp(1546300799), u32::MAX);
    assert_eq!(encode_timestamp(1546300800 + 4294967296), 0);
    for raw in [0u32, 1, 173801154, 0x8000_0000, u32::MAX] {
        assert_eq!(encode_timestamp(decode_timestamp(raw).unwrap()), raw);
    }
}

#[test]
fn utc_timestamp_exists_exactly_where_a_date_time_does() {
    for secs in [0i64, -1, 1, 1720101954, TIMESTAMP_EPOCH, MIN_UTC_SECONDS, MAX_UTC_SECONDS] {
        assert_eq!(utc_timestamp(secs), Some(secs));
        assert_eq!(DateTime::from_timestamp(secs, 0).unwrap().timestamp(), secs);
    }
    for secs in [MIN_UTC_SECONDS - 1, MAX_UTC_SECONDS + 1, i64::MIN, i64::MAX] {
        assert_eq!(utc_timestamp(secs), None);
        assert!(DateTime::from_timestamp(secs, 0).is_none());
    }
    assert_eq!(DateTime::from_timestamp(MIN_UTC_SECONDS, 0).unwrap(), DateTime::<Utc>::MIN_UTC);
    assert_eq!(
        DateTime::from_timestamp(MAX_UTC_SECONDS, 0).unwrap().timestamp(),
        DateTime::<Utc>::MAX_UTC.timestamp()
    );
}

#[test]
fn every_byte_stands_for_a_variant_and_unknown_bytes_for_the_fallback() {
    for v in 0..=255u8 {
        let id_type = IdType::from(v);
        assert_eq!(v > 4, v != 0 && id_type == IdType::NotDeclared);
        assert_eq!(v >= 15, UAType::from(v) == UAType::Other);
        assert_eq!(v == 0 || v > 4, OperationalStatus::from(v) == OperationalStatus::Undeclared);
        assert_eq!(v != 1, HeightType::from(v) == HeightType::AboveTakeoff);
        assert_eq!(v == 0 || v > 12, HorizontalAccuracy::from(v) == HorizontalAccuracy::Unknown);
        assert_eq!(v == 0 || v > 6, VerticalAccuracy::from(v) == VerticalAccuracy::Unknown);
        assert_eq!(v == 0 || v > 4, SpeedAccuracy::from(v) == SpeedAccuracy::Unknown);
        assert_eq!(v != 1, ClassificationType::from(v) == ClassificationType::Undeclared);
        assert_eq!(v == 0 || v > 2, OperatorLocationType::from(v) == OperatorLocationType::TakeOff);
        assert_eq!(v == 0 || v > 3, UaCategory::from(v) == UaCategory::Undefined);
        assert_eq!(v == 0 || v > 7, UaClass::from(v) == UaClass::Undefined);
        let operator = OperatorIdType::from(v);
        if v == 0 {
            assert_eq!(operator, OperatorIdType::OperatorId);
        } else {
            assert_eq!(operator, OperatorIdType::Unknown(v));
        }
    }
}

#[test]
fn the_number_of_a_variant_stands_for_that_variant() {
    for v in 0..=4u8 {
        assert_eq!(u8::from(IdType::from(v)), v);
        assert_eq!(u8::from(OperationalStatus::from(v)), v);
        assert_eq!(u8::from(SpeedAccuracy::from(v)), v);
    }
    for v in 0..=15u8 {
        assert_eq!(u8::from(UAType::from(v)), v);
    }
    for v in 0..=12u8 {
        assert_eq!(u8::from(HorizontalAccuracy::from(v)), v);
    }
    for v in 0..=6u8 {
        assert_eq!(u8::from(VerticalAccuracy::from(v)), v);
    }
    for v in 0..=7u8 {
        assert_eq!(u8::from(UaClass::from(v)), v);
    }
    for v in 0..=3u8 {
        assert_eq!(u8::from(UaCategory::from(v)), v);
    }
    for v in 0..=2u8 {
        assert_eq!(u8::from(OperatorLocationType::from(v)), v);
    }
    for v in 0..=1u8 {
        assert_eq!(u8::from(HeightType::from(v)), v);
        assert_eq!(u8::from(ClassificationType::from(v)), v);
    }
    for v in 0..=255u8 {
        assert_eq!(u8::from(OperatorIdType::from(v)), v);
    }
    assert_eq!(u8::from(UAType::Other), 15);
    assert_eq!(u8::from(VerticalAccuracy::Unknown), 0);
    let folded: u8 = VerticalAccuracy::from(9).into();
    assert_eq!(folded, 0);
}
