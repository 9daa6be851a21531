//! Extended highlighting of a field.

use vstd::prelude::*;

use crate::server::stream::StreamFormatError;

verus! {

/// How a field's characters are highlighted.
#[derive(Clone, Copy, Debug, Hash, PartialEq, Eq, Structural)]
pub enum Highlighting {
    Default,
    Normal,
    Blink,
    Reverse,
    Underscore,
}

/// The value that a wire byte stands for, if any.
pub open spec fn highlighting_from_byte(b: u8) -> Option<Highlighting> {
    match b {
        0x00 => Some(Highlighting::Default),
        0xF0 => Some(Highlighting::Normal),
        0xF1 => Some(Highlighting::Blink),
        0xF2 => Some(Highlighting::Reverse),
        0xF4 => Some(Highlighting::Underscore),
        _ => None,
    }
}

impl Highlighting {
    /// The wire byte of this value.
    pub open spec fn spec_byte(self) -> u8 {
        match self {
            Highlighting::Default => 0x00,
            Highlighting::Normal => 0xF0,
            Highlighting::Blink => 0xF1,
            Highlighting::Reverse => 0xF2,
            Highlighting::Underscore => 0xF4,
        }
    }

    pub fn to_byte(self) -> (r: u8)
        ensures
            r == self.spec_byte(),
    {
        match self {
            Highlighting::Default => 0x00,
            Highlighting::Normal => 0xF0,
            Highlighting::Blink => 0xF1,
            Highlighting::Reverse => 0xF2,
            Highlighting::Underscore => 0xF4,
        }
    }

    /// Reads a wire byte; an unknown code is `InvalidData`.
    pub fn try_from_byte(value: u8) -> (r: Result<Highlighting, StreamFormatError>)
        ensures
            r == match highlighting_from_byte(value) {
                Some(v) => Ok(v),
                None => Err(StreamFormatError::InvalidData),
            },
    {
        match value {
            0x00 => Ok(Highlighting::Default),
            0xF0 => Ok(Highlighting::Normal),
            0xF1 => Ok(Highlighting::Blink),
            0xF2 => Ok(Highlighting::Reverse),
            0xF4 => Ok(Highlighting::Underscore),
            _ => Err(StreamFormatError::InvalidData),
        }
    }
}

/// Reading back the byte of a value gives the value.
pub proof fn lemma_highlighting_round_trip(v: Highlighting)
    ensures
        highlighting_from_byte(v.spec_byte()) == Some(v),
{
}

} // verus!
