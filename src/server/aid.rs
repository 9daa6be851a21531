//! Attention identifiers: the key that made the terminal send a record.

use vstd::prelude::*;

use crate::server::stream::StreamFormatError;

verus! {

/// The key or event that caused an inbound record.
#[derive(Clone, Copy, Debug, Hash, PartialEq, Eq, Structural)]
pub enum AID {
    NoAID,
    StructuredField,
    ReadPartition,
    TriggerAction,
    SysReq,
    Enter,
    PF2,
    PF3,
    PF4,
    PF5,
    PF6,
    PF7,
    PF8,
    PF9,
    PF10,
    PF11,
    PF12,
    PF13,
    PF14,
    PF15,
    PF16,
    PF17,
    PF18,
    PF19,
    PF20,
    PF21,
    PF22,
    PF23,
    PF24,
    PA1,
    PA2,
    PA3,
    Clear,
    ClearPartition,
    CursorSelect,
}

/// The key that a leading record byte names, if any. 0xF1 reads as Enter,
/// as does the 3270 Enter code 0x7D; so no byte is left for PF1, which this
/// enumeration therefore leaves out.
pub open spec fn aid_from_byte(b: u8) -> Option<AID> {
    match b {
        0x60 => Some(AID::NoAID),
        0x88 => Some(AID::StructuredField),
        0x61 => Some(AID::ReadPartition),
        0x7F => Some(AID::TriggerAction),
        0xF0 => Some(AID::SysReq),
        0x7D => Some(AID::Enter),
        0xF1 => Some(AID::Enter),
        0xF2 => Some(AID::PF2),
        0xF3 => Some(AID::PF3),
        0xF4 => Some(AID::PF4),
        0xF5 => Some(AID::PF5),
        0xF6 => Some(AID::PF6),
        0xF7 => Some(AID::PF7),
        0xF8 => Some(AID::PF8),
        0xF9 => Some(AID::PF9),
        0x7A => Some(AID::PF10),
        0x7B => Some(AID::PF11),
        0x7C => Some(AID::PF12),
        0xC1 => Some(AID::PF13),
        0xC2 => Some(AID::PF14),
        0xC3 => Some(AID::PF15),
        0xC4 => Some(AID::PF16),
        0xC5 => Some(AID::PF17),
        0xC6 => Some(AID::PF18),
        0xC7 => Some(AID::PF19),
        0xC8 => Some(AID::PF20),
        0xC9 => Some(AID::PF21),
        0x4A => Some(AID::PF22),
        0x4B => Some(AID::PF23),
        0x4C => Some(AID::PF24),
        0x6C => Some(AID::PA1),
        0x6E => Some(AID::PA2),
        0x6B => Some(AID::PA3),
        0x6D => Some(AID::Clear),
        0x6A => Some(AID::ClearPartition),
        0x7E => Some(AID::CursorSelect),
        _ => None,
    }
}

impl AID {
    /// Reads the leading byte of a record; an unknown code is `InvalidAID`
    /// carrying that byte.
    pub fn try_from_byte(value: u8) -> (r: Result<AID, StreamFormatError>)
        ensures
            r == match aid_from_byte(value) {
                Some(a) => Ok(a),
                None => Err(StreamFormatError::InvalidAID { aid: value }),
            },
    {
        match value {
            0x60 => Ok(AID::NoAID),
            0x88 => Ok(AID::StructuredField),
            0x61 => Ok(AID::ReadPartition),
            0x7F => Ok(AID::TriggerAction),
            0xF0 => Ok(AID::SysReq),
            0x7D => Ok(AID::Enter),
            0xF1 => Ok(AID::Enter),
            0xF2 => Ok(AID::PF2),
            0xF3 => Ok(AID::PF3),
            0xF4 => Ok(AID::PF4),
            0xF5 => Ok(AID::PF5),
            0xF6 => Ok(AID::PF6),
            0xF7 => Ok(AID::PF7),
            0xF8 => Ok(AID::PF8),
            0xF9 => Ok(AID::PF9),
            0x7A => Ok(AID::PF10),
            0x7B => Ok(AID::PF11),
            0x7C => Ok(AID::PF12),
            0xC1 => Ok(AID::PF13),
            0xC2 => Ok(AID::PF14),
            0xC3 => Ok(AID::PF15),
            0xC4 => Ok(AID::PF16),
            0xC5 => Ok(AID::PF17),
            0xC6 => Ok(AID::PF18),
            0xC7 => Ok(AID::PF19),
            0xC8 => Ok(AID::PF20),
            0xC9 => Ok(AID::PF21),
            0x4A => Ok(AID::PF22),
            0x4B => Ok(AID::PF23),
            0x4C => Ok(AID::PF24),
            0x6C => Ok(AID::PA1),
            0x6E => Ok(AID::PA2),
            0x6B => Ok(AID::PA3),
            0x6D => Ok(AID::Clear),
            0x6A => Ok(AID::ClearPartition),
            0x7E => Ok(AID::CursorSelect),
            _ => Err(StreamFormatError::InvalidAID { aid: value }),
        }
    }
}

} // verus!
