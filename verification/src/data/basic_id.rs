use vstd::prelude::*;
use vstd::std_specs::convert::FromSpecImpl;

verus! {

pub const MESSAGE_TYPE: u8 = 0;

#[derive(Debug, Clone, PartialEq, Eq)]
pub struct BasicId {
    pub id_type: IdType,
    pub ua_type: UAType,
    /// The aircraft's identifier, filled with zeros up to 20 bytes.
    pub uas_id: [u8; 20],
}

/// What a [`BasicId`] says, with its identifier as a sequence of 20 bytes.
pub struct BasicIdView {
    pub id_type: IdType,
    pub ua_type: UAType,
    pub uas_id: Seq<u8>,
}

impl View for BasicId {
    type V = BasicIdView;

    open spec fn view(&self) -> BasicIdView {
        BasicIdView { id_type: self.id_type, ua_type: self.ua_type, uas_id: self.uas_id@ }
    }
}

#[derive(Debug, Copy, Clone, PartialEq, Eq, Structural)]
pub enum IdType {
    /// Wire value 0: the message identifies nothing.
    NotDeclared,
    /// ANSI/CTA-2063-A
    SerialNumber,
    CaaRegistrationId,
    UtmAssignedId,
    SpecificSessionId,
}

impl IdType {
    /// The number that stands for `self` on the wire.
    pub open spec fn code(self) -> u8 {
        match self {
            IdType::NotDeclared => 0,
            IdType::SerialNumber => 1,
            IdType::CaaRegistrationId => 2,
            IdType::UtmAssignedId => 3,
            IdType::SpecificSessionId => 4,
        }
    }

    /// The variant that the wire value `value` stands for.
    /// Values above 4 fold to `NotDeclared`.
    pub open spec fn of_code(value: u8) -> Self {
        if value == 1 {
            IdType::SerialNumber
        } else if value == 2 {
            IdType::CaaRegistrationId
        } else if value == 3 {
            IdType::UtmAssignedId
        } else if value == 4 {
            IdType::SpecificSessionId
        } else {
            IdType::NotDeclared
        }
    }

    /// The number of a variant stands for that variant.
    pub proof fn lemma_code_round_trip(self)
        ensures
            Self::of_code(self.code()) == self,
    {
    }
}

impl From<u8> for IdType {
    /// The variant that a wire value stands for. Every value stands for
    /// one: a value without a meaning of its own stands for `NotDeclared`.
    fn from(value: u8) -> (r: Self)
        ensures
            r == Self::of_code(value),
            value > 4 ==> r == IdType::NotDeclared,
    {
        match value {
            0 => IdType::NotDeclared,
            1 => IdType::SerialNumber,
            2 => IdType::CaaRegistrationId,
            3 => IdType::UtmAssignedId,
            4 => IdType::SpecificSessionId,
            _ => IdType::NotDeclared,
        }
    }
}

impl FromSpecImpl<u8> for IdType {
    open spec fn obeys_from_spec() -> bool {
        true
    }

    open spec fn from_spec(value: u8) -> Self {
        Self::of_code(value)
    }
}

impl From<IdType> for u8 {
    /// The number that stands for a variant on the wire.
    fn from(value: IdType) -> (r: Self)
        ensures
            r == value.code(),
    {
        match value {
            IdType::NotDeclared => 0,
            IdType::SerialNumber => 1,
            IdType::CaaRegistrationId => 2,
            IdType::UtmAssignedId => 3,
            IdType::SpecificSessionId => 4,
        }
    }
}

impl FromSpecImpl<IdType> for u8 {
    open spec fn obeys_from_spec() -> bool {
        true
    }

    open spec fn from_spec(value: IdType) -> Self {
        value.code()
    }
}

#[derive(Debug, Copy, Clone, PartialEq, Eq, Structural)]
pub enum UAType {
    /// Wire value 0: no kind of aircraft is given.
    NotDeclared,
    Aeroplane,
    HelicopterOrMultirotor,
    Gyroplane,
    HybridLift,
    Ornithopter,
    Glider,
    Kite,
    FreeBalloon,
    CaptiveBalloon,
    Airship,
    FreeFallParachute,
    Rocket,
    TetheredPoweredAircraft,
    GroundObstacle,
    Other,
}

impl UAType {
    /// The number that stands for `self` on the wire.
    pub open spec fn code(self) -> u8 {
        match self {
            UAType::NotDeclared => 0,
            UAType::Aeroplane => 1,
            UAType::HelicopterOrMultirotor => 2,
            UAType::Gyroplane => 3,
            UAType::HybridLift => 4,
            UAType::Ornithopter => 5,
            UAType::Glider => 6,
            UAType::Kite => 7,
            UAType::FreeBalloon => 8,
            UAType::CaptiveBalloon => 9,
            UAType::Airship => 10,
            UAType::FreeFallParachute => 11,
            UAType::Rocket => 12,
            UAType::TetheredPoweredAircraft => 13,
            UAType::GroundObstacle => 14,
            UAType::Other => 15,
        }
    }

    /// The variant that the wire value `value` stands for.
    /// Values above 14 fold to `Other`.
    pub open spec fn of_code(value: u8) -> Self {
        if value == 0 {
            UAType::NotDeclared
        } else if value == 1 {
            UAType::Aeroplane
        } else if value == 2 {
            UAType::HelicopterOrMultirotor
        } else if value == 3 {
            UAType::Gyroplane
        } else if value == 4 {
            UAType::HybridLift
        } else if value == 5 {
            UAType::Ornithopter
        } else if value == 6 {
            UAType::Glider
        } else if value == 7 {
            UAType::Kite
        } else if value == 8 {
            UAType::FreeBalloon
        } else if value == 9 {
            UAType::CaptiveBalloon
        } else if value == 10 {
            UAType::Airship
        } else if value == 11 {
            UAType::FreeFallParachute
        } else if value == 12 {
            UAType::Rocket
        } else if value == 13 {
            UAType::TetheredPoweredAircraft
        } else if value == 14 {
            UAType::GroundObstacle
        } else {
            UAType::Other
        }
    }

    /// The number of a variant stands for that variant.
    pub proof fn lemma_code_round_trip(self)
        ensures
            Self::of_code(self.code()) == self,
    {
    }
}

impl From<u8> for UAType {
    /// The variant that a wire value stands for. Every value stands for
    /// one: a value without a meaning of its own stands for `Other`.
    fn from(value: u8) -> (r: Self)
        ensures
            r == Self::of_code(value),
            value > 14 ==> r == UAType::Other,
    {
        match value {
            0 => UAType::NotDeclared,
            1 => UAType::Aeroplane,
            2 => UAType::HelicopterOrMultirotor,
            3 => UAType::Gyroplane,
            4 => UAType::HybridLift,
            5 => UAType::Ornithopter,
            6 => UAType::Glider,
            7 => UAType::Kite,
            8 => UAType::FreeBalloon,
            9 => UAType::CaptiveBalloon,
            10 => UAType::Airship,
            11 => UAType::FreeFallParachute,
            12 => UAType::Rocket,
            13 => UAType::TetheredPoweredAircraft,
            14 => UAType::GroundObstacle,
            _ => UAType::Other,
        }
    }
}

impl FromSpecImpl<u8> for UAType {
    open spec fn obeys_from_spec() -> bool {
        true
    }

    open spec fn from_spec(value: u8) -> Self {
        Self::of_code(value)
    }
}

impl From<UAType> for u8 {
    /// The number that stands for a variant on the wire.
    fn from(value: UAType) -> (r: Self)
        ensures
            r == value.code(),
    {
        match value {
            UAType::Aeroplane => 1,
            UAType::HelicopterOrMultirotor => 2,
            UAType::Gyroplane => 3,
            UAType::HybridLift => 4,
            UAType::Ornithopter => 5,
            UAType::Glider => 6,
            UAType::Kite => 7,
            UAType::FreeBalloon => 8,
            UAType::CaptiveBalloon => 9,
            UAType::Airship => 10,
            UAType::FreeFallParachute => 11,
            UAType::Rocket => 12,
            UAType::TetheredPoweredAircraft => 13,
            UAType::GroundObstacle => 14,
            UAType::Other => 15,
            UAType::NotDeclared => 0,
        }
    }
}

impl FromSpecImpl<UAType> for u8 {
    open spec fn obeys_from_spec() -> bool {
        true
    }

    open spec fn from_spec(value: UAType) -> Self {
        value.code()
    }
}

} // verus!
