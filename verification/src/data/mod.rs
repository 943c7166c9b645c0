//! The typed messages that the codec reads and writes.
use vstd::prelude::*;

pub mod basic_id;
pub mod location;
pub mod operator_id;
pub mod self_id;
pub mod system;

verus! {

/// One Remote ID message.
#[derive(Debug, Clone, PartialEq, Eq)]
pub enum RemoteIDMessage {
    /// Provides ID for UA, characterizes the type of ID, and identifies the type of UA.
    BasicID(basic_id::BasicId),
    /// Provides location, altitude, direction, and speed of UA.
    Location(location::Location),
    /// Includes Remote Pilot location and multiple aircraft information (group) if
    /// applicable, and additional system information.
    System(system::System),
    /// Provides Operator ID.
    OperatorId(operator_id::OperatorId),
    /// Free text by which an operator describes the purpose of a flight.
    SelfId(self_id::SelfId),
}

/// What a [`RemoteIDMessage`] says, with every fixed byte field as a sequence.
pub enum MessageView {
    BasicID(basic_id::BasicIdView),
    Location(location::Location),
    System(system::System),
    OperatorId(operator_id::OperatorIdView),
    SelfId(self_id::SelfIdView),
}

impl View for RemoteIDMessage {
    type V = MessageView;

    open spec fn view(&self) -> MessageView {
        match self {
            RemoteIDMessage::BasicID(m) => MessageView::BasicID(m@),
            RemoteIDMessage::Location(m) => MessageView::Location(m@),
            RemoteIDMessage::System(m) => MessageView::System(m@),
            RemoteIDMessage::OperatorId(m) => MessageView::OperatorId(m@),
            RemoteIDMessage::SelfId(m) => MessageView::SelfId(m@),
        }
    }
}

} // verus!
