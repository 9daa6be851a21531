//! Background transparency of a field.

use vstd::prelude::*;

use crate::server::stream::StreamFormatError;

verus! {

/// How a field's background combines with what lies under it.
#[derive(Clone, Copy, Debug, Hash, PartialEq, Eq, Structural)]
pub enum Transparency {
    Default,
    Or,
    Xor,
    Opaque,
}

/// The value that a wire byte stands for, if any.
pub open spec fn transparency_from_byte(b: u8) -> Option<Transparency> {
    match b {
        0x00 => Some(Transparency::Default),
        0xF0 => Some(Transparency::Or),
        0xF1 => Some(Transparency::Xor),
        0xF2 => Some(Transparency::Opaque),
        _ => None,
    }
}

impl Transparency {
    /// The wire byte of this value.
    pub open spec fn spec_byte(self) -> u8 {
        match self {
            Transparency::Default => 0x00,
            Transparency::Or => 0xF0,
            Transparency::Xor => 0xF1,
            Transparency::Opaque => 0xF2,
        }
    }

    pub fn to_byte(self) -> (r: u8)
        ensures
            r == self.spec_byte(),
    {
        match self {
            Transparency::Default => 0x00,
            Transparency::Or => 0xF0,
            Transparency::Xor => 0xF1,
            Transparency::Opaque => 0xF2,
        }
    }

    /// Reads a wire byte; an unknown code is `InvalidData`.
    pub fn try_from_byte(value: u8) -> (r: Result<Transparency, StreamFormatError>)
        ensures
            r == match transparency_from_byte(value) {
                Some(v) => Ok(v),
                None => Err(StreamFormatError::InvalidData),
            },
    {
        match value {
            0x00 => Ok(Transparency::Default),
            0xF0 => Ok(Transparency::Or),
            0xF1 => Ok(Transparency::Xor),
            0xF2 => Ok(Transparency::Opaque),
            _ => Err(StreamFormatError::InvalidData),
        }
    }
}

/// Reading back the byte of a value gives the value.
pub proof fn lemma_transparency_round_trip(v: Transparency)
    ensures
        transparency_from_byte(v.spec_byte()) == Some(v),
{
}

} // verus!
