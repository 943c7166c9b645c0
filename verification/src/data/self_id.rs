use vstd::prelude::*;

verus! {

pub const MESSAGE_TYPE: u8 = 0x3;

#[derive(Debug, Clone, PartialEq, Eq)]
pub struct SelfId {
    pub description: Description,
}

#[derive(Debug, Clone, PartialEq, Eq)]
pub enum Description {
    /// Free text, filled with zeros up to 23 bytes.
    Text([u8; 23]),
}

/// What a [`SelfId`] says: its text as a sequence of 23 bytes.
pub struct SelfIdView {
    pub text: Seq<u8>,
}

impl View for SelfId {
    type V = SelfIdView;

    open spec fn view(&self) -> SelfIdView {
        match self.description {
            Description::Text(text) => SelfIdView { text: text@ },
        }
    }
}

} // verus!
