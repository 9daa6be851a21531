//! Colors of the extended field attributes; `Default` inherits.

use vstd::prelude::*;

use crate::server::stream::StreamFormatError;

verus! {

/// A foreground or background color.
#[derive(Clone, Copy, Debug, Hash, PartialEq, Eq, Structural)]
pub enum Color {
    Default,
    NeutralBG,
    Blue,
    Red,
    Pink,
    Green,
    Turquoise,
    Yellow,
    NeutralFG,
    Black,
    DeepBlue,
    Orange,
    Purple,
    PaleGreen,
    PaleTurquoise,
    Grey,
    White,
}

/// The value that a wire byte stands for, if any.
pub open spec fn color_from_byte(b: u8) -> Option<Color> {
    match b {
        0x00 => Some(Color::Default),
        0xF0 => Some(Color::NeutralBG),
        0xF1 => Some(Color::Blue),
        0xF2 => Some(Color::Red),
        0xF3 => Some(Color::Pink),
        0xF4 => Some(Color::Green),
        0xF5 => Some(Color::Turquoise),
        0xF6 => Some(Color::Yellow),
        0xF7 => Some(Color::NeutralFG),
        0xF8 => Some(Color::Black),
        0xF9 => Some(Color::DeepBlue),
        0xFA => Some(Color::Orange),
        0xFB => Some(Color::Purple),
        0xFC => Some(Color::PaleGreen),
        0xFD => Some(Color::PaleTurquoise),
        0xFE => Some(Color::Grey),
        0xFF => Some(Color::White),
        _ => None,
    }
}

impl Color {
    /// The wire byte of this value.
    pub open spec fn spec_byte(self) -> u8 {
        match self {
            Color::Default => 0x00,
            Color::NeutralBG => 0xF0,
            Color::Blue => 0xF1,
            Color::Red => 0xF2,
            Color::Pink => 0xF3,
            Color::Green => 0xF4,
            Color::Turquoise => 0xF5,
            Color::Yellow => 0xF6,
            Color::NeutralFG => 0xF7,
            Color::Black => 0xF8,
            Color::DeepBlue => 0xF9,
            Color::Orange => 0xFA,
            Color::Purple => 0xFB,
            Color::PaleGreen => 0xFC,
            Color::PaleTurquoise => 0xFD,
            Color::Grey => 0xFE,
            Color::White => 0xFF,
        }
    }

    pub fn to_byte(self) -> (r: u8)
        ensures
            r == self.spec_byte(),
    {
        match self {
            Color::Default => 0x00,
            Color::NeutralBG => 0xF0,
            Color::Blue => 0xF1,
            Color::Red => 0xF2,
            Color::Pink => 0xF3,
            Color::Green => 0xF4,
            Color::Turquoise => 0xF5,
            Color::Yellow => 0xF6,
            Color::NeutralFG => 0xF7,
            Color::Black => 0xF8,
            Color::DeepBlue => 0xF9,
            Color::Orange => 0xFA,
            Color::Purple => 0xFB,
            Color::PaleGreen => 0xFC,
            Color::PaleTurquoise => 0xFD,
            Color::Grey => 0xFE,
            Color::White => 0xFF,
        }
    }

    /// Reads a wire byte; an unknown code is `InvalidData`.
    pub fn try_from_byte(value: u8) -> (r: Result<Color, StreamFormatError>)
        ensures
            r == match color_from_byte(value) {
                Some(v) => Ok(v),
                None => Err(StreamFormatError::InvalidData),
            },
    {
        match value {
            0x00 => Ok(Color::Default),
            0xF0 => Ok(Color::NeutralBG),
            0xF1 => Ok(Color::Blue),
            0xF2 => Ok(Color::Red),
            0xF3 => Ok(Color::Pink),
            0xF4 => Ok(Color::Green),
            0xF5 => Ok(Color::Turquoise),
            0xF6 => Ok(Color::Yellow),
            0xF7 => Ok(Color::NeutralFG),
            0xF8 => Ok(Color::Black),
            0xF9 => Ok(Color::DeepBlue),
            0xFA => Ok(Color::Orange),
            0xFB => Ok(Color::Purple),
            0xFC => Ok(Color::PaleGreen),
            0xFD => Ok(Color::PaleTurquoise),
            0xFE => Ok(Color::Grey),
            0xFF => Ok(Color::White),
            _ => Err(StreamFormatError::InvalidData),
        }
    }
}

/// Reading back the byte of a value gives the value.
pub proof fn lemma_color_round_trip(v: Color)
    ensures
        color_from_byte(v.spec_byte()) == Some(v),
{
}

} // verus!
