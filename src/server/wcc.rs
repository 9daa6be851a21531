//! The field attribute byte and the write control character, both sent
//! through the 3270 translation that keeps them clear of the order codes.

use vstd::prelude::*;

verus! {

/// The graphic byte that stands for a 6-bit value on the wire.
pub open spec fn translate_six_bits(v: u8) -> u8 {
    match v {
        0x00 => 0x40,
        0x01 => 0xC1,
        0x02 => 0xC2,
        0x03 => 0xC3,
        0x04 => 0xC4,
        0x05 => 0xC5,
        0x06 => 0xC6,
        0x07 => 0xC7,
        0x08 => 0xC8,
        0x09 => 0xC9,
        0x0A => 0x4A,
        0x0B => 0x4B,
        0x0C => 0x4C,
        0x0D => 0x4D,
        0x0E => 0x4E,
        0x0F => 0x4F,
        0x10 => 0x50,
        0x11 => 0xD1,
        0x12 => 0xD2,
        0x13 => 0xD3,
        0x14 => 0xD4,
        0x15 => 0xD5,
        0x16 => 0xD6,
        0x17 => 0xD7,
        0x18 => 0xD8,
        0x19 => 0xD9,
        0x1A => 0x5A,
        0x1B => 0x5B,
        0x1C => 0x5C,
        0x1D => 0x5D,
        0x1E => 0x5E,
        0x1F => 0x5F,
        0x20 => 0x60,
        0x21 => 0x61,
        0x22 => 0xE2,
        0x23 => 0xE3,
        0x24 => 0xE4,
        0x25 => 0xE5,
        0x26 => 0xE6,
        0x27 => 0xE7,
        0x28 => 0xE8,
        0x29 => 0xE9,
        0x2A => 0x6A,
        0x2B => 0x6B,
        0x2C => 0x6C,
        0x2D => 0x6D,
        0x2E => 0x6E,
        0x2F => 0x6F,
        0x30 => 0xF0,
        0x31 => 0xF1,
        0x32 => 0xF2,
        0x33 => 0xF3,
        0x34 => 0xF4,
        0x35 => 0xF5,
        0x36 => 0xF6,
        0x37 => 0xF7,
        0x38 => 0xF8,
        0x39 => 0xF9,
        0x3A => 0x7A,
        0x3B => 0x7B,
        0x3C => 0x7C,
        0x3D => 0x7D,
        0x3E => 0x7E,
        0x3F => 0x7F,
        _ => v,
    }
}

/// A value of six bits is carried as its translation; any other byte is
/// already clear of the order codes and goes as it is.
pub open spec fn ascii_translatable(v: u8) -> u8 {
    if v < 0x40 {
        translate_six_bits(v)
    } else {
        v
    }
}

pub fn make_ascii_translatable(v: u8) -> (r: u8)
    ensures
        r == ascii_translatable(v),
{
    match v {
        0x00 => 0x40,
        0x01 => 0xC1,
        0x02 => 0xC2,
        0x03 => 0xC3,
        0x04 => 0xC4,
        0x05 => 0xC5,
        0x06 => 0xC6,
        0x07 => 0xC7,
        0x08 => 0xC8,
        0x09 => 0xC9,
        0x0A => 0x4A,
        0x0B => 0x4B,
        0x0C => 0x4C,
        0x0D => 0x4D,
        0x0E => 0x4E,
        0x0F => 0x4F,
        0x10 => 0x50,
        0x11 => 0xD1,
        0x12 => 0xD2,
        0x13 => 0xD3,
        0x14 => 0xD4,
        0x15 => 0xD5,
        0x16 => 0xD6,
        0x17 => 0xD7,
        0x18 => 0xD8,
        0x19 => 0xD9,
        0x1A => 0x5A,
        0x1B => 0x5B,
        0x1C => 0x5C,
        0x1D => 0x5D,
        0x1E => 0x5E,
        0x1F => 0x5F,
        0x20 => 0x60,
        0x21 => 0x61,
        0x22 => 0xE2,
        0x23 => 0xE3,
        0x24 => 0xE4,
        0x25 => 0xE5,
        0x26 => 0xE6,
        0x27 => 0xE7,
        0x28 => 0xE8,
        0x29 => 0xE9,
        0x2A => 0x6A,
        0x2B => 0x6B,
        0x2C => 0x6C,
        0x2D => 0x6D,
        0x2E => 0x6E,
        0x2F => 0x6F,
        0x30 => 0xF0,
        0x31 => 0xF1,
        0x32 => 0xF2,
        0x33 => 0xF3,
        0x34 => 0xF4,
        0x35 => 0xF5,
        0x36 => 0xF6,
        0x37 => 0xF7,
        0x38 => 0xF8,
        0x39 => 0xF9,
        0x3A => 0x7A,
        0x3B => 0x7B,
        0x3C => 0x7C,
        0x3D => 0x7D,
        0x3E => 0x7E,
        0x3F => 0x7F,
        _ => v,
    }
}

/// The translated byte is never an order code, and its low six bits are the
/// value it carries.
pub proof fn lemma_translatable_keeps_low_bits(v: u8)
    ensures
        ascii_translatable(v) >= 0x40,
        v < 0x40 ==> ascii_translatable(v) & 0x3F == v,
{
    let t = ascii_translatable(v);
    assert(t & 0x3F == t % 64) by (bit_vector);
}

/// Attribute bits of a field: protection, numeric input, the display selector
/// (two bits) and the modified data tag. Bit 0x02 is reserved.
#[derive(Clone, Copy, Debug, Hash, PartialEq, Eq, Structural)]
pub struct FieldAttribute {
    pub bits: u8,
}

impl FieldAttribute {
    pub const NORMAL: u8 = 0x00;
    pub const MDT: u8 = 0x01;
    pub const DETECTABLE: u8 = 0x04;
    pub const INTENSIFIED: u8 = 0x08;
    pub const NON_DISPLAY: u8 = 0x0C;
    pub const NUMERIC: u8 = 0x10;
    pub const PROTECTED: u8 = 0x20;

    /// No flag is set outside the defined ones.
    pub open spec fn wf(self) -> bool {
        self.bits & 0xC2 == 0
    }

    pub fn empty() -> (r: FieldAttribute)
        ensures
            r.bits == 0,
            r.wf(),
    {
        proof {
            assert(0u8 & 0xC2u8 == 0) by (bit_vector);
        }
        FieldAttribute { bits: 0 }
    }

    pub fn bits(self) -> (r: u8)
        ensures
            r == self.bits,
    {
        self.bits
    }

    /// The flags of `bits`, unless a bit outside the defined ones is set.
    pub fn from_bits(bits: u8) -> (r: Option<FieldAttribute>)
        ensures
            r == (if bits & 0xC2 == 0 {
                Some(FieldAttribute { bits })
            } else {
                None
            }),
    {
        if bits & 0xC2 == 0 {
            Some(FieldAttribute { bits })
        } else {
            None
        }
    }

    /// The flags set in either operand.
    pub fn union(self, other: FieldAttribute) -> (r: FieldAttribute)
        ensures
            r.bits == self.bits | other.bits,
            self.wf() && other.wf() ==> r.wf(),
    {
        let (a, b) = (self.bits, other.bits);
        proof {
            assert(a & 0xC2 == 0 && b & 0xC2 == 0 ==> (a | b) & 0xC2 == 0) by (bit_vector);
        }
        FieldAttribute { bits: a | b }
    }

    pub fn contains(self, other: FieldAttribute) -> (r: bool)
        ensures
            r == (self.bits & other.bits == other.bits),
    {
        self.bits & other.bits == other.bits
    }
}

impl FieldAttribute {
    /// The byte that carries these bits on the wire.
    pub open spec fn spec_wire(self) -> u8 {
        ascii_translatable(self.bits)
    }

    pub fn to_wire(self) -> (r: u8)
        ensures
            r == self.spec_wire(),
    {
        make_ascii_translatable(self.bits)
    }
}

/// The write control character: reset, printer format and start, sound
/// alarm, keyboard restore and reset of the modified data tags.
#[derive(Clone, Copy, Debug, Hash, PartialEq, Eq, Structural)]
pub struct WCC {
    pub bits: u8,
}

impl WCC {
    pub const RESET_MDT: u8 = 0x01;
    pub const KBD_RESTORE: u8 = 0x02;
    pub const SOUND_ALARM: u8 = 0x04;
    pub const START_PRINTER: u8 = 0x08;
    pub const PRINTER_FORMAT_2: u8 = 0x10;
    pub const PRINTER_FORMAT_1: u8 = 0x20;
    pub const RESET: u8 = 0x40;

    /// No flag is set outside the defined ones.
    pub open spec fn wf(self) -> bool {
        self.bits & 0x80 == 0
    }

    pub fn empty() -> (r: WCC)
        ensures
            r.bits == 0,
            r.wf(),
    {
        proof {
            assert(0u8 & 0x80u8 == 0) by (bit_vector);
        }
        WCC { bits: 0 }
    }

    pub fn bits(self) -> (r: u8)
        ensures
            r == self.bits,
    {
        self.bits
    }

    /// The flags of `bits`, unless a bit outside the defined ones is set.
    pub fn from_bits(bits: u8) -> (r: Option<WCC>)
        ensures
            r == (if bits & 0x80 == 0 {
                Some(WCC { bits })
            } else {
                None
            }),
    {
        if bits & 0x80 == 0 {
            Some(WCC { bits })
        } else {
            None
        }
    }

    /// The flags set in either operand.
    pub fn union(self, other: WCC) -> (r: WCC)
        ensures
            r.bits == self.bits | other.bits,
            self.wf() && other.wf() ==> r.wf(),
    {
        let (a, b) = (self.bits, other.bits);
        proof {
            assert(a & 0x80 == 0 && b & 0x80 == 0 ==> (a | b) & 0x80 == 0) by (bit_vector);
        }
        WCC { bits: a | b }
    }

    pub fn contains(self, other: WCC) -> (r: bool)
        ensures
            r == (self.bits & other.bits == other.bits),
    {
        self.bits & other.bits == other.bits
    }
}

impl WCC {
    /// The byte that carries this character on the wire.
    pub open spec fn spec_wire(self) -> u8 {
        ascii_translatable(self.bits)
    }

    pub fn to_ascii_compat(self) -> (r: u8)
        ensures
            r == self.spec_wire(),
    {
        make_ascii_translatable(self.bits)
    }
}

} // verus!
