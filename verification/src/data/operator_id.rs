use vstd::prelude::*;
use vstd::std_specs::convert::FromSpecImpl;

verus! {

pub const MESSAGE_TYPE: u8 = 5;

#[derive(Debug, Copy, Clone, PartialEq, Eq)]
pub struct OperatorId {
    pub id_type: OperatorIdType,
    /// The operator's identifier, filled with zeros up to 20 bytes.
    pub operator_id: [u8; 20],
}

/// What an [`OperatorId`] says, with its identifier as a sequence of 20 bytes.
pub struct OperatorIdView {
    pub id_type: OperatorIdType,
    pub operator_id: Seq<u8>,
}

impl View for OperatorId {
    type V = OperatorIdView;

    open spec fn view(&self) -> OperatorIdView {
        OperatorIdView { id_type: self.id_type, operator_id: self.operator_id@ }
    }
}

#[derive(Debug, Copy, Clone, PartialEq, Eq, Structural)]
pub enum OperatorIdType {
    /// Wire value 0.
    OperatorId,
    /// Wire values 1 to 200 are reserved and 201 to 255 are for private use;
    /// either is kept as it came.
    Unknown(u8),
}

impl OperatorIdType {
    /// The byte that stands for `self` on the wire.
    pub open spec fn code(self) -> u8 {
        match self {
            OperatorIdType::OperatorId => 0,
            OperatorIdType::Unknown(value) => value,
        }
    }

    /// The variant that the wire value `value` stands for.
    pub open spec fn of_code(value: u8) -> Self {
        if value == 0 {
            OperatorIdType::OperatorId
        } else {
            OperatorIdType::Unknown(value)
        }
    }

    /// Whether decoding `self.code()` gives `self` back: `Unknown(0)` is the
    /// one value for which it does not.
    pub open spec fn is_canonical(self) -> bool {
        self != OperatorIdType::Unknown(0)
    }

    /// The byte of a kind of identifier stands for that kind, but for
    /// `Unknown(0)`, whose byte stands for `OperatorId`.
    pub proof fn lemma_code_round_trip(self)
        ensures
            Self::of_code(self.code()) == self <==> self.is_canonical(),
    {
    }
}

impl From<u8> for OperatorIdType {
    /// The variant that a wire value stands for. Every value stands for
    /// one: a value without a meaning of its own stands for `Unknown(value)`.
    fn from(value: u8) -> (r: Self)
        ensures
            r == Self::of_code(value),
            value > 0 ==> r == OperatorIdType::Unknown(value),
    {
        match value {
            0 => OperatorIdType::OperatorId,
            _ => OperatorIdType::Unknown(value),
        }
    }
}

impl FromSpecImpl<u8> for OperatorIdType {
    open spec fn obeys_from_spec() -> bool {
        true
    }

    open spec fn from_spec(value: u8) -> Self {
        Self::of_code(value)
    }
}

impl From<OperatorIdType> for u8 {
    /// The number that stands for a variant on the wire.
    fn from(value: OperatorIdType) -> (r: Self)
        ensures
            r == value.code(),
    {
        match value {
            OperatorIdType::OperatorId => 0,
            OperatorIdType::Unknown(value) => value,
        }
    }
}

impl FromSpecImpl<OperatorIdType> for u8 {
    open spec fn obeys_from_spec() -> bool {
        true
    }

    open spec fn from_spec(value: OperatorIdType) -> Self {
        value.code()
    }
}

} // verus!
