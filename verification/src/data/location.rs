use vstd::prelude::*;
use vstd::std_specs::convert::FromSpecImpl;

verus! {

pub const MESSAGE_TYPE: u8 = 1;

/// Where the aircraft is and how it moves.
///
/// Every quantity is an integer that counts steps of the size named at its
/// field, so a value says exactly what a message carries.
#[derive(Debug, Clone, PartialEq, Eq)]
pub struct Location {
    pub operational_status: OperationalStatus,
    pub height_type: HeightType,
    /// Ground speed, in sixteenths of a metre per second.
    pub speed: u16,
    /// Vertical speed, in half metres per second; climbing is positive.
    pub vertical_speed: i8,
    /// Barometric altitude, in half metres.
    pub pressure_altitude: i32,
    /// Altitude above the WGS-84 ellipsoid, in half metres.
    pub geodetic_altitude: i32,
    /// Direction expressed as the route course measured clockwise from true
    /// north, in degrees.
    pub track_direction: u16,
    pub horizontal_accuracy: HorizontalAccuracy,
    pub vertical_accuracy: VerticalAccuracy,
    /// Latitude, in ten-millionths of a degree; north is positive.
    pub latidute: i32,
    /// Longitude, in ten-millionths of a degree; east is positive.
    pub longitude: i32,
    /// Height above the reference that `height_type` names, in half metres.
    pub height: i32,
    pub baro_altitude_accuracy: VerticalAccuracy,
    pub speed_accuracy: SpeedAccuracy,
    /// Time since the last full hour, in tenths of a second.
    pub timestamp: u16,
    /// Accuracy of `timestamp`, in tenths of a second; `None` where it is not
    /// known.
    pub timestamp_accuracy: Option<u8>,
}

impl View for Location {
    type V = Location;

    /// A location holds only numbers and variants, so it is its own model.
    open spec fn view(&self) -> Location {
        *self
    }
}

#[allow(non_camel_case_types)]
#[derive(Debug, Copy, Clone, PartialEq, Eq, Structural)]
pub enum VerticalAccuracy {
    /// >=150 m or Unknown
    Unknown,
    LessThan_150_m,
    LessThan_45_m,
    LessThan_25_m,
    LessThan_10_m,
    LessThan_3_m,
    LessThan_1_m,
}

impl VerticalAccuracy {
    /// The number that stands for `self` on the wire.
    pub open spec fn code(self) -> u8 {
        match self {
            VerticalAccuracy::Unknown => 0,
            VerticalAccuracy::LessThan_150_m => 1,
            VerticalAccuracy::LessThan_45_m => 2,
            VerticalAccuracy::LessThan_25_m => 3,
            VerticalAccuracy::LessThan_10_m => 4,
            VerticalAccuracy::LessThan_3_m => 5,
            VerticalAccuracy::LessThan_1_m => 6,
        }
    }

    /// The variant that the wire value `value` stands for.
    /// Values above 6 fold to `Unknown`.
    pub open spec fn of_code(value: u8) -> Self {
        if value == 1 {
            VerticalAccuracy::LessThan_150_m
        } else if value == 2 {
            VerticalAccuracy::LessThan_45_m
        } else if value == 3 {
            VerticalAccuracy::LessThan_25_m
        } else if value == 4 {
            VerticalAccuracy::LessThan_10_m
        } else if value == 5 {
            VerticalAccuracy::LessThan_3_m
        } else if value == 6 {
            VerticalAccuracy::LessThan_1_m
        } else {
            VerticalAccuracy::Unknown
        }
    }

    /// The number of a variant stands for that variant.
    pub proof fn lemma_code_round_trip(self)
        ensures
            Self::of_code(self.code()) == self,
    {
    }
}

impl From<u8> for VerticalAccuracy {
    /// The variant that a wire value stands for. Every value stands for
    /// one: a value without a meaning of its own stands for `Unknown`.
    fn from(value: u8) -> (r: Self)
        ensures
            r == Self::of_code(value),
            value > 6 ==> r == VerticalAccuracy::Unknown,
    {
        match value {
            1 => VerticalAccuracy::LessThan_150_m,
            2 => VerticalAccuracy::LessThan_45_m,
            3 => VerticalAccuracy::LessThan_25_m,
            4 => VerticalAccuracy::LessThan_10_m,
            5 => VerticalAccuracy::LessThan_3_m,
            6 => VerticalAccuracy::LessThan_1_m,
            _ => VerticalAccuracy::Unknown,
        }
    }
}

impl FromSpecImpl<u8> for VerticalAccuracy {
    open spec fn obeys_from_spec() -> bool {
        true
    }

    open spec fn from_spec(value: u8) -> Self {
        Self::of_code(value)
    }
}

impl From<VerticalAccuracy> for u8 {
    /// The number that stands for a variant on the wire.
    fn from(value: VerticalAccuracy) -> (r: Self)
        ensures
            r == value.code(),
    {
        match value {
            VerticalAccuracy::Unknown => 0,
            VerticalAccuracy::LessThan_150_m => 1,
            VerticalAccuracy::LessThan_45_m => 2,
            VerticalAccuracy::LessThan_25_m => 3,
            VerticalAccuracy::LessThan_10_m => 4,
            VerticalAccuracy::LessThan_3_m => 5,
            VerticalAccuracy::LessThan_1_m => 6,
        }
    }
}

impl FromSpecImpl<VerticalAccuracy> for u8 {
    open spec fn obeys_from_spec() -> bool {
        true
    }

    open spec fn from_spec(value: VerticalAccuracy) -> Self {
        value.code()
    }
}

#[allow(non_camel_case_types)]
#[derive(Debug, Copy, Clone, PartialEq, Eq, Structural)]
pub enum HorizontalAccuracy {
    /// >= 18.52 km (10 NM) or Unknown
    Unknown,
    /// <18.52 km
    LessThan_10_NM,
    /// <7.408 km
    LessThan_4_NM,
    /// <3.704 km
    LessThan_2_NM,
    /// <1852 m
    LessThan_1_NM,
    /// <926 m
    LessThan_half_NM,
    /// <555.6 m
    LessThan_third_NM,
    /// <185.2 m
    LessThan_tenth_NM,
    /// <92.6 m
    LessThan_twentieth_NM,
    /// <30 m
    LessThan_30_m,
    /// <10 m
    LessThan_10_m,
    /// <3 m
    LessThan_3_m,
    /// <1 m
    LessThan_1_m,
}

impl HorizontalAccuracy {
    /// The number that stands for `self` on the wire.
    pub open spec fn code(self) -> u8 {
        match self {
            HorizontalAccuracy::Unknown => 0,
            HorizontalAccuracy::LessThan_10_NM => 1,
            HorizontalAccuracy::LessThan_4_NM => 2,
            HorizontalAccuracy::LessThan_2_NM => 3,
            HorizontalAccuracy::LessThan_1_NM => 4,
            HorizontalAccuracy::LessThan_half_NM => 5,
            HorizontalAccuracy::LessThan_third_NM => 6,
            HorizontalAccuracy::LessThan_tenth_NM => 7,
            HorizontalAccuracy::LessThan_twentieth_NM => 8,
            HorizontalAccuracy::LessThan_30_m => 9,
            HorizontalAccuracy::LessThan_10_m => 10,
            HorizontalAccuracy::LessThan_3_m => 11,
            HorizontalAccuracy::LessThan_1_m => 12,
        }
    }

    /// The variant that the wire value `value` stands for.
    /// Values above 12 fold to `Unknown`.
    pub open spec fn of_code(value: u8) -> Self {
        if value == 1 {
            HorizontalAccuracy::LessThan_10_NM
        } else if value == 2 {
            HorizontalAccuracy::LessThan_4_NM
        } else if value == 3 {
            HorizontalAccuracy::LessThan_2_NM
        } else if value == 4 {
            HorizontalAccuracy::LessThan_1_NM
        } else if value == 5 {
            HorizontalAccuracy::LessThan_half_NM
        } else if value == 6 {
            HorizontalAccuracy::LessThan_third_NM
        } else if value == 7 {
            HorizontalAccuracy::LessThan_tenth_NM
        } else if value == 8 {
            HorizontalAccuracy::LessThan_twentieth_NM
        } else if value == 9 {
            HorizontalAccuracy::LessThan_30_m
        } else if value == 10 {
            HorizontalAccuracy::LessThan_10_m
        } else if value == 11 {
            HorizontalAccuracy::LessThan_3_m
        } else if value == 12 {
            HorizontalAccuracy::LessThan_1_m
        } else {
            HorizontalAccuracy::Unknown
        }
    }

    /// The number of a variant stands for that variant.
    pub proof fn lemma_code_round_trip(self)
        ensures
            Self::of_code(self.code()) == self,
    {
    }
}

impl From<u8> for HorizontalAccuracy {
    /// The variant that a wire value stands for. Every value stands for
    /// one: a value without a meaning of its own stands for `Unknown`.
    fn from(value: u8) -> (r: Self)
        ensures
            r == Self::of_code(value),
            value > 12 ==> r == HorizontalAccuracy::Unknown,
    {
        match value {
            1 => HorizontalAccuracy::LessThan_10_NM,
            2 => HorizontalAccuracy::LessThan_4_NM,
            3 => HorizontalAccuracy::LessThan_2_NM,
            4 => HorizontalAccuracy::LessThan_1_NM,
            5 => HorizontalAccuracy::LessThan_half_NM,
            6 => HorizontalAccuracy::LessThan_third_NM,
            7 => HorizontalAccuracy::LessThan_tenth_NM,
            8 => HorizontalAccuracy::LessThan_twentieth_NM,
            9 => HorizontalAccuracy::LessThan_30_m,
            10 => HorizontalAccuracy::LessThan_10_m,
            11 => HorizontalAccuracy::LessThan_3_m,
            12 => HorizontalAccuracy::LessThan_1_m,
            _ => HorizontalAccuracy::Unknown,
        }
    }
}

impl FromSpecImpl<u8> for HorizontalAccuracy {
    open spec fn obeys_from_spec() -> bool {
        true
    }

    open spec fn from_spec(value: u8) -> Self {
        Self::of_code(value)
    }
}

impl From<HorizontalAccuracy> for u8 {
    /// The number that stands for a variant on the wire.
    fn from(value: HorizontalAccuracy) -> (r: Self)
        ensures
            r == value.code(),
    {
        match value {
            HorizontalAccuracy::Unknown => 0,
            HorizontalAccuracy::LessThan_10_NM => 1,
            HorizontalAccuracy::LessThan_4_NM => 2,
            HorizontalAccuracy::LessThan_2_NM => 3,
            HorizontalAccuracy::LessThan_1_NM => 4,
            HorizontalAccuracy::LessThan_half_NM => 5,
            HorizontalAccuracy::LessThan_third_NM => 6,
            HorizontalAccuracy::LessThan_tenth_NM => 7,
            HorizontalAccuracy::LessThan_twentieth_NM => 8,
            HorizontalAccuracy::LessThan_30_m => 9,
            HorizontalAccuracy::LessThan_10_m => 10,
            HorizontalAccuracy::LessThan_3_m => 11,
            HorizontalAccuracy::LessThan_1_m => 12,
        }
    }
}

impl FromSpecImpl<HorizontalAccuracy> for u8 {
    open spec fn obeys_from_spec() -> bool {
        true
    }

    open spec fn from_spec(value: HorizontalAccuracy) -> Self {
        value.code()
    }
}

#[allow(non_camel_case_types)]
#[derive(Debug, Copy, Clone, PartialEq, Eq, Structural)]
pub enum SpeedAccuracy {
    /// >=10 m/s or Unknown
    Unknown,
    /// <10 m/s
    LessThan_10_mps,
    /// <3 m/s
    LessThan_3_mps,
    /// <1 m/s
    LessThan_1_mps,
    /// <0.3 m/s
    LessThan_third_mps,
}

impl SpeedAccuracy {
    /// The number that stands for `self` on the wire.
    pub open spec fn code(self) -> u8 {
        match self {
            SpeedAccuracy::Unknown => 0,
            SpeedAccuracy::LessThan_10_mps => 1,
            SpeedAccuracy::LessThan_3_mps => 2,
            SpeedAccuracy::LessThan_1_mps => 3,
            SpeedAccuracy::LessThan_third_mps => 4,
        }
    }

    /// The variant that the wire value `value` stands for.
    /// Values above 4 fold to `Unknown`.
    pub open spec fn of_code(value: u8) -> Self {
        if value == 1 {
            SpeedAccuracy::LessThan_10_mps
        } else if value == 2 {
            SpeedAccuracy::LessThan_3_mps
        } else if value == 3 {
            SpeedAccuracy::LessThan_1_mps
        } else if value == 4 {
            SpeedAccuracy::LessThan_third_mps
        } else {
            SpeedAccuracy::Unknown
        }
    }

    /// The number of a variant stands for that variant.
    pub proof fn lemma_code_round_trip(self)
        ensures
            Self::of_code(self.code()) == self,
    {
    }
}

impl From<u8> for SpeedAccuracy {
    /// The variant that a wire value stands for. Every value stands for
    /// one: a value without a meaning of its own stands for `Unknown`.
    fn from(value: u8) -> (r: Self)
        ensures
            r == Self::of_code(value),
            value > 4 ==> r == SpeedAccuracy::Unknown,
    {
        match value {
            1 => SpeedAccuracy::LessThan_10_mps,
            2 => SpeedAccuracy::LessThan_3_mps,
            3 => SpeedAccuracy::LessThan_1_mps,
            4 => SpeedAccuracy::LessThan_third_mps,
            _ => SpeedAccuracy::Unknown,
        }
    }
}

impl FromSpecImpl<u8> for SpeedAccuracy {
    open spec fn obeys_from_spec() -> bool {
        true
    }

    open spec fn from_spec(value: u8) -> Self {
        Self::of_code(value)
    }
}

impl From<SpeedAccuracy> for u8 {
    /// The number that stands for a variant on the wire.
    fn from(value: SpeedAccuracy) -> (r: Self)
        ensures
            r == value.code(),
    {
        match value {
            SpeedAccuracy::Unknown => 0,
            SpeedAccuracy::LessThan_10_mps => 1,
            SpeedAccuracy::LessThan_3_mps => 2,
            SpeedAccuracy::LessThan_1_mps => 3,
            SpeedAccuracy::LessThan_third_mps => 4,
        }
    }
}

impl FromSpecImpl<SpeedAccuracy> for u8 {
    open spec fn obeys_from_spec() -> bool {
        true
    }

    open spec fn from_spec(value: SpeedAccuracy) -> Self {
        value.code()
    }
}

#[derive(Debug, Copy, Clone, PartialEq, Eq, Structural)]
pub enum OperationalStatus {
    Undeclared,
    Ground,
    Airborne,
    Emergency,
    RemoteIdSystemFailure,
}

impl OperationalStatus {
    /// The number that stands for `self` on the wire.
    pub open spec fn code(self) -> u8 {
        match self {
            OperationalStatus::Undeclared => 0,
            OperationalStatus::Ground => 1,
            OperationalStatus::Airborne => 2,
            OperationalStatus::Emergency => 3,
            OperationalStatus::RemoteIdSystemFailure => 4,
        }
    }

    /// The variant that the wire value `value` stands for.
    /// Values above 4 fold to `Undeclared`.
    pub open spec fn of_code(value: u8) -> Self {
        if value == 1 {
            OperationalStatus::Ground
        } else if value == 2 {
            OperationalStatus::Airborne
        } else if value == 3 {
            OperationalStatus::Emergency
        } else if value == 4 {
            OperationalStatus::RemoteIdSystemFailure
        } else {
            OperationalStatus::Undeclared
        }
    }

    /// The number of a variant stands for that variant.
    pub proof fn lemma_code_round_trip(self)
        ensures
            Self::of_code(self.code()) == self,
    {
    }
}

impl From<u8> for OperationalStatus {
    /// The variant that a wire value stands for. Every value stands for
    /// one: a value without a meaning of its own stands for `Undeclared`.
    fn from(value: u8) -> (r: Self)
        ensures
            r == Self::of_code(value),
            value > 4 ==> r == OperationalStatus::Undeclared,
    {
        match value {
            1 => OperationalStatus::Ground,
            2 => OperationalStatus::Airborne,
            3 => OperationalStatus::Emergency,
            4 => OperationalStatus::RemoteIdSystemFailure,
            _ => OperationalStatus::Undeclared,
        }
    }
}

impl FromSpecImpl<u8> for OperationalStatus {
    open spec fn obeys_from_spec() -> bool {
        true
    }

    open spec fn from_spec(value: u8) -> Self {
        Self::of_code(value)
    }
}

impl From<OperationalStatus> for u8 {
    /// The number that stands for a variant on the wire.
    fn from(value: OperationalStatus) -> (r: Self)
        ensures
            r == value.code(),
    {
        match value {
            OperationalStatus::Undeclared => 0,
            OperationalStatus::Ground => 1,
            OperationalStatus::Airborne => 2,
            OperationalStatus::Emergency => 3,
            OperationalStatus::RemoteIdSystemFailure => 4,
        }
    }
}

impl FromSpecImpl<OperationalStatus> for u8 {
    open spec fn obeys_from_spec() -> bool {
        true
    }

    open spec fn from_spec(value: OperationalStatus) -> Self {
        value.code()
    }
}

#[derive(Debug, Copy, Clone, PartialEq, Eq, Structural)]
pub enum HeightType {
    AboveTakeoff,
    AboveGroundLevel,
}

impl HeightType {
    /// The number that stands for `self` on the wire.
    pub open spec fn code(self) -> u8 {
        match self {
            HeightType::AboveTakeoff => 0,
            HeightType::AboveGroundLevel => 1,
        }
    }

    /// The variant that the wire value `value` stands for.
    /// Values above 1 fold to `AboveTakeoff`.
    pub open spec fn of_code(value: u8) -> Self {
        if value == 1 {
            HeightType::AboveGroundLevel
        } else {
            HeightType::AboveTakeoff
        }
    }

    /// The number of a variant stands for that variant.
    pub proof fn lemma_code_round_trip(self)
        ensures
            Self::of_code(self.code()) == self,
    {
    }
}

impl From<u8> for HeightType {
    /// The variant that a wire value stands for. Every value stands for
    /// one: a value without a meaning of its own stands for `AboveTakeoff`.
    fn from(value: u8) -> (r: Self)
        ensures
            r == Self::of_code(value),
            value > 1 ==> r == HeightType::AboveTakeoff,
    {
        match value {
            1 => HeightType::AboveGroundLevel,
            _ => HeightType::AboveTakeoff,
        }
    }
}

impl FromSpecImpl<u8> for HeightType {
    open spec fn obeys_from_spec() -> bool {
        true
    }

    open spec fn from_spec(value: u8) -> Self {
        Self::of_code(value)
    }
}

impl From<HeightType> for u8 {
    /// The number that stands for a variant on the wire.
    fn from(value: HeightType) -> (r: Self)
        ensures
            r == value.code(),
    {
        match value {
            HeightType::AboveTakeoff => 0,
            HeightType::AboveGroundLevel => 1,
        }
    }
}

impl FromSpecImpl<HeightType> for u8 {
    open spec fn obeys_from_spec() -> bool {
        true
    }

    open spec fn from_spec(value: HeightType) -> Self {
        value.code()
    }
}

} // verus!
