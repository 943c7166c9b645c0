use vstd::prelude::*;
use vstd::std_specs::convert::FromSpecImpl;

verus! {

pub const MESSAGE_TYPE: u8 = 4;

/// Where the remote pilot is, and what area a group of aircraft covers.
///
/// Every quantity is an integer that counts steps of the size named at its
/// field, so a value says exactly what a message carries.
#[derive(Debug, Clone, PartialEq, Eq)]
pub struct System {
    pub classification_type: ClassificationType,
    pub operator_location_type: OperatorLocationType,
    /// Latitude of the remote pilot, in ten-millionths of a degree.
    pub operator_latidute: i32,
    /// Longitude of the remote pilot, in ten-millionths of a degree.
    pub operator_longitude: i32,
    /// Number of aircraft in the area, group or formation.
    pub area_count: u16,
    /// Radius of the cylindrical area of the group or formation, in metres.
    pub area_radius: u16,
    /// Ceiling of the group's operations above the WGS-84 ellipsoid, in half
    /// metres.
    pub area_ceiling: i32,
    /// Floor of the group's operations above the WGS-84 ellipsoid, in half
    /// metres.
    pub area_floor: i32,
    /// Category and class of the aircraft under European Union rules;
    /// `UaClassification::undefined()` under any other classification.
    pub ua_classification: UaClassification,
    /// Altitude of the remote pilot above the WGS-84 ellipsoid, in half metres.
    pub operator_altitude: i32,
    /// The instant of the report, in seconds since 1970-01-01T00:00:00Z.
    pub timestamp: i64,
}

impl View for System {
    type V = System;

    /// A system report holds only numbers and variants, so it is its own model.
    open spec fn view(&self) -> System {
        *self
    }
}

#[derive(Debug, Clone, PartialEq, Eq)]
pub struct UaClassification {
    pub category: UaCategory,
    pub class: UaClass,
}

impl UaClassification {
    /// The classification of an aircraft that declares none.
    pub open spec fn spec_undefined() -> Self {
        UaClassification { category: UaCategory::Undefined, class: UaClass::Undefined }
    }

    #[verifier::when_used_as_spec(spec_undefined)]
    pub fn undefined() -> (r: Self)
        ensures
            r == Self::spec_undefined(),
    {
        Self { category: UaCategory::Undefined, class: UaClass::Undefined }
    }
}

#[derive(Debug, Copy, Clone, PartialEq, Eq, Structural)]
pub enum ClassificationType {
    Undeclared,
    EuropeanUnion,
}

impl ClassificationType {
    /// The number that stands for `self` on the wire.
    pub open spec fn code(self) -> u8 {
        match self {
            ClassificationType::Undeclared => 0,
            ClassificationType::EuropeanUnion => 1,
        }
    }

    /// The variant that the wire value `value` stands for.
    /// The reserved values, 2 and above, fold to `Undeclared`.
    pub open spec fn of_code(value: u8) -> Self {
        if value == 1 {
            ClassificationType::EuropeanUnion
        } else {
            ClassificationType::Undeclared
        }
    }

    /// The number of a variant stands for that variant.
    pub proof fn lemma_code_round_trip(self)
        ensures
            Self::of_code(self.code()) == self,
    {
    }
}

impl From<u8> for ClassificationType {
    /// The variant that a wire value stands for. Every value stands for
    /// one: a value without a meaning of its own stands for `Undeclared`.
    fn from(value: u8) -> (r: Self)
        ensures
            r == Self::of_code(value),
            value > 1 ==> r == ClassificationType::Undeclared,
    {
        match value {
            1 => ClassificationType::EuropeanUnion,
            _ => ClassificationType::Undeclared,
        }
    }
}

impl FromSpecImpl<u8> for ClassificationType {
    open spec fn obeys_from_spec() -> bool {
        true
    }

    open spec fn from_spec(value: u8) -> Self {
        Self::of_code(value)
    }
}

impl From<ClassificationType> for u8 {
    /// The number that stands for a variant on the wire.
    fn from(value: ClassificationType) -> (r: Self)
        ensures
            r == value.code(),
    {
        match value {
            ClassificationType::Undeclared => 0,
            ClassificationType::EuropeanUnion => 1,
        }
    }
}

impl FromSpecImpl<ClassificationType> for u8 {
    open spec fn obeys_from_spec() -> bool {
        true
    }

    open spec fn from_spec(value: ClassificationType) -> Self {
        value.code()
    }
}

#[derive(Debug, Copy, Clone, PartialEq, Eq, Structural)]
pub enum OperatorLocationType {
    TakeOff,
    Dynamic,
    Fixed,
}

impl OperatorLocationType {
    /// The number that stands for `self` on the wire.
    pub open spec fn code(self) -> u8 {
        match self {
            OperatorLocationType::TakeOff => 0,
            OperatorLocationType::Dynamic => 1,
            OperatorLocationType::Fixed => 2,
        }
    }

    /// The variant that the wire value `value` stands for.
    /// Values above 2 fold to `TakeOff`.
    pub open spec fn of_code(value: u8) -> Self {
        if value == 1 {
            OperatorLocationType::Dynamic
        } else if value == 2 {
            OperatorLocationType::Fixed
        } else {
            OperatorLocationType::TakeOff
        }
    }

    /// The number of a variant stands for that variant.
    pub proof fn lemma_code_round_trip(self)
        ensures
            Self::of_code(self.code()) == self,
    {
    }
}

impl From<u8> for OperatorLocationType {
    /// The variant that a wire value stands for. Every value stands for
    /// one: a value without a meaning of its own stands for `TakeOff`.
    fn from(value: u8) -> (r: Self)
        ensures
            r == Self::of_code(value),
            value > 2 ==> r == OperatorLocationType::TakeOff,
    {
        match value {
            1 => OperatorLocationType::Dynamic,
            2 => OperatorLocationType::Fixed,
            _ => OperatorLocationType::TakeOff,
        }
    }
}

impl FromSpecImpl<u8> for OperatorLocationType {
    open spec fn obeys_from_spec() -> bool {
        true
    }

    open spec fn from_spec(value: u8) -> Self {
        Self::of_code(value)
    }
}

impl From<OperatorLocationType> for u8 {
    /// The number that stands for a variant on the wire.
    fn from(value: OperatorLocationType) -> (r: Self)
        ensures
            r == value.code(),
    {
        match value {
            OperatorLocationType::TakeOff => 0,
            OperatorLocationType::Dynamic => 1,
            OperatorLocationType::Fixed => 2,
        }
    }
}

impl FromSpecImpl<OperatorLocationType> for u8 {
    open spec fn obeys_from_spec() -> bool {
        true
    }

    open spec fn from_spec(value: OperatorLocationType) -> Self {
        value.code()
    }
}

#[derive(Debug, Copy, Clone, PartialEq, Eq, Structural)]
pub enum UaCategory {
    Undefined,
    Open,
    Specific,
    Certified,
}

impl UaCategory {
    /// The number that stands for `self` on the wire.
    pub open spec fn code(self) -> u8 {
        match self {
            UaCategory::Undefined => 0,
            UaCategory::Open => 1,
            UaCategory::Specific => 2,
            UaCategory::Certified => 3,
        }
    }

    /// The variant that the wire value `value` stands for.
    /// Values above 3 fold to `Undefined`.
    pub open spec fn of_code(value: u8) -> Self {
        if value == 1 {
            UaCategory::Open
        } else if value == 2 {
            UaCategory::Specific
        } else if value == 3 {
            UaCategory::Certified
        } else {
            UaCategory::Undefined
        }
    }

    /// The number of a variant stands for that variant.
    pub proof fn lemma_code_round_trip(self)
        ensures
            Self::of_code(self.code()) == self,
    {
    }
}

impl From<u8> for UaCategory {
    /// The variant that a wire value stands for. Every value stands for
    /// one: a value without a meaning of its own stands for `Undefined`.
    fn from(value: u8) -> (r: Self)
        ensures
            r == Self::of_code(value),
            value > 3 ==> r == UaCategory::Undefined,
    {
        match value {
            1 => UaCategory::Open,
            2 => UaCategory::Specific,
            3 => UaCategory::Certified,
            _ => UaCategory::Undefined,
        }
    }
}

impl FromSpecImpl<u8> for UaCategory {
    open spec fn obeys_from_spec() -> bool {
        true
    }

    open spec fn from_spec(value: u8) -> Self {
        Self::of_code(value)
    }
}

impl From<UaCategory> for u8 {
    /// The number that stands for a variant on the wire.
    fn from(value: UaCategory) -> (r: Self)
        ensures
            r == value.code(),
    {
        match value {
            UaCategory::Undefined => 0,
            UaCategory::Open => 1,
            UaCategory::Specific => 2,
            UaCategory::Certified => 3,
        }
    }
}

impl FromSpecImpl<UaCategory> for u8 {
    open spec fn obeys_from_spec() -> bool {
        true
    }

    open spec fn from_spec(value: UaCategory) -> Self {
        value.code()
    }
}

#[derive(Debug, Copy, Clone, PartialEq, Eq, Structural)]
pub enum UaClass {
    Undefined,
    Class0,
    Class1,
    Class2,
    Class3,
    Class4,
    Class5,
    Class6,
}

impl UaClass {
    /// The number that stands for `self` on the wire.
    pub open spec fn code(self) -> u8 {
        match self {
            UaClass::Undefined => 0,
            UaClass::Class0 => 1,
            UaClass::Class1 => 2,
            UaClass::Class2 => 3,
            UaClass::Class3 => 4,
            UaClass::Class4 => 5,
            UaClass::Class5 => 6,
            UaClass::Class6 => 7,
        }
    }

    /// The variant that the wire value `value` stands for.
    /// Values above 7 fold to `Undefined`.
    pub open spec fn of_code(value: u8) -> Self {
        if value == 1 {
            UaClass::Class0
        } else if value == 2 {
            UaClass::Class1
        } else if value == 3 {
            UaClass::Class2
        } else if value == 4 {
            UaClass::Class3
        } else if value == 5 {
            UaClass::Class4
        } else if value == 6 {
            UaClass::Class5
        } else if value == 7 {
            UaClass::Class6
        } else {
            UaClass::Undefined
        }
    }

    /// The number of a variant stands for that variant.
    pub proof fn lemma_code_round_trip(self)
        ensures
            Self::of_code(self.code()) == self,
    {
    }
}

impl From<u8> for UaClass {
    /// The variant that a wire value stands for. Every value stands for
    /// one: a value without a meaning of its own stands for `Undefined`.
    fn from(value: u8) -> (r: Self)
        ensures
            r == Self::of_code(value),
            value > 7 ==> r == UaClass::Undefined,
    {
        match value {
            1 => UaClass::Class0,
            2 => UaClass::Class1,
            3 => UaClass::Class2,
            4 => UaClass::Class3,
            5 => UaClass::Class4,
            6 => UaClass::Class5,
            7 => UaClass::Class6,
            _ => UaClass::Undefined,
        }
    }
}

impl FromSpecImpl<u8> for UaClass {
    open spec fn obeys_from_spec() -> bool {
        true
    }

    open spec fn from_spec(value: u8) -> Self {
        Self::of_code(value)
    }
}

impl From<UaClass> for u8 {
    /// The number that stands for a variant on the wire.
    fn from(value: UaClass) -> (r: Self)
        ensures
            r == value.code(),
    {
        match value {
            UaClass::Undefined => 0,
            UaClass::Class0 => 1,
            UaClass::Class1 => 2,
            UaClass::Class2 => 3,
            UaClass::Class3 => 4,
            UaClass::Class4 => 5,
            UaClass::Class5 => 6,
            UaClass::Class6 => 7,
        }
    }
}

impl FromSpecImpl<UaClass> for u8 {
    open spec fn obeys_from_spec() -> bool {
        true
    }

    open spec fn from_spec(value: UaClass) -> Self {
        value.code()
    }
}

} // verus!
