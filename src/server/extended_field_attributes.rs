//! Extended field attributes: (type, value) byte pairs that qualify a field.

use vstd::prelude::*;

use crate::server::color::{color_from_byte, lemma_color_round_trip, Color};
use crate::server::highlighting::{highlighting_from_byte, lemma_highlighting_round_trip, Highlighting};
use crate::server::stream::StreamFormatError;
use crate::server::transparency::{lemma_transparency_round_trip, transparency_from_byte, Transparency};
use crate::server::wcc::{ascii_translatable, lemma_translatable_keeps_low_bits, FieldAttribute};

verus! {

/// Which sides of a field carry an outline.
#[derive(Clone, Copy, Debug, Hash, PartialEq, Eq, Structural)]
pub struct FieldOutline {
    pub bits: u8,
}

impl FieldOutline {
    pub const NO_OUTLINE: u8 = 0x00;
    pub const UNDERLINE: u8 = 0x01;
    pub const RIGHT: u8 = 0x02;
    pub const OVERLINE: u8 = 0x04;
    pub const LEFT: u8 = 0x08;

    /// No flag is set outside the defined ones.
    pub open spec fn wf(self) -> bool {
        self.bits & 0xF0 == 0
    }

    pub fn empty() -> (r: FieldOutline)
        ensures
            r.bits == 0,
            r.wf(),
    {
        proof {
            assert(0u8 & 0xF0u8 == 0) by (bit_vector);
        }
        FieldOutline { bits: 0 }
    }

    pub fn bits(self) -> (r: u8)
        ensures
            r == self.bits,
    {
        self.bits
    }

    /// The flags of `bits`, unless a bit outside the defined ones is set.
    pub fn from_bits(bits: u8) -> (r: Option<FieldOutline>)
        ensures
            r == (if bits & 0xF0 == 0 {
                Some(FieldOutline { bits })
            } else {
                None
            }),
    {
        if bits & 0xF0 == 0 {
            Some(FieldOutline { bits })
        } else {
            None
        }
    }

    /// The flags set in either operand.
    pub fn union(self, other: FieldOutline) -> (r: FieldOutline)
        ensures
            r.bits == self.bits | other.bits,
            self.wf() && other.wf() ==> r.wf(),
    {
        let (a, b) = (self.bits, other.bits);
        proof {
            assert(a & 0xF0 == 0 && b & 0xF0 == 0 ==> (a | b) & 0xF0 == 0) by (bit_vector);
        }
        FieldOutline { bits: a | b }
    }

    pub fn contains(self, other: FieldOutline) -> (r: bool)
        ensures
            r == (self.bits & other.bits == other.bits),
    {
        self.bits & other.bits == other.bits
    }
}

/// Validation that the terminal applies to a field.
#[derive(Clone, Copy, Debug, Hash, PartialEq, Eq, Structural)]
pub struct FieldValidation {
    pub bits: u8,
}

impl FieldValidation {
    pub const TRIGGER: u8 = 0x01;
    pub const MANDATORY_ENTRY: u8 = 0x02;
    pub const MANDATORY_FILL: u8 = 0x04;

    /// No flag is set outside the defined ones.
    pub open spec fn wf(self) -> bool {
        self.bits & 0xF8 == 0
    }

    pub fn empty() -> (r: FieldValidation)
        ensures
            r.bits == 0,
            r.wf(),
    {
        proof {
            assert(0u8 & 0xF8u8 == 0) by (bit_vector);
        }
        FieldValidation { bits: 0 }
    }

    pub fn bits(self) -> (r: u8)
        ensures
            r == self.bits,
    {
        self.bits
    }

    /// The flags of `bits`, unless a bit outside the defined ones is set.
    pub fn from_bits(bits: u8) -> (r: Option<FieldValidation>)
        ensures
            r == (if bits & 0xF8 == 0 {
                Some(FieldValidation { bits })
            } else {
                None
            }),
    {
        if bits & 0xF8 == 0 {
            Some(FieldValidation { bits })
        } else {
            None
        }
    }

    /// The flags set in either operand.
    pub fn union(self, other: FieldValidation) -> (r: FieldValidation)
        ensures
            r.bits == self.bits | other.bits,
            self.wf() && other.wf() ==> r.wf(),
    {
        let (a, b) = (self.bits, other.bits);
        proof {
            assert(a & 0xF8 == 0 && b & 0xF8 == 0 ==> (a | b) & 0xF8 == 0) by (bit_vector);
        }
        FieldValidation { bits: a | b }
    }

    pub fn contains(self, other: FieldValidation) -> (r: bool)
        ensures
            r == (self.bits & other.bits == other.bits),
    {
        self.bits & other.bits == other.bits
    }
}

/// One extended attribute of a field.
#[derive(Clone, Copy, Debug, Hash, PartialEq, Eq, Structural)]
pub enum ExtendedFieldAttribute {
    AllAttributes,
    ExtendedHighlighting(Highlighting),
    ForegroundColor(Color),
    CharacterSet(u8),
    BackgroundColor(Color),
    Transparency(Transparency),
    FieldAttribute(FieldAttribute),
    FieldValidation(FieldValidation),
    FieldOutlining(FieldOutline),
}

/// Lifts a decoded enumerant into an attribute, an unknown code being
/// `InvalidData`.
pub open spec fn lift<T>(v: Option<T>, f: spec_fn(T) -> ExtendedFieldAttribute) -> Result<ExtendedFieldAttribute, StreamFormatError> {
    match v {
        Some(x) => Ok(f(x)),
        None => Err(StreamFormatError::InvalidData),
    }
}

/// The attribute that a (type, value) pair stands for.
pub open spec fn efa_from_bytes(typ: u8, val: u8) -> Result<ExtendedFieldAttribute, StreamFormatError> {
    if typ == 0x00 {
        if val == 0x00 {
            Ok(ExtendedFieldAttribute::AllAttributes)
        } else {
            Err(StreamFormatError::InvalidData)
        }
    } else if typ == 0xC0 {
        let fa = FieldAttribute { bits: val & 0x3F };
        if fa.wf() {
            Ok(ExtendedFieldAttribute::FieldAttribute(fa))
        } else {
            Err(StreamFormatError::InvalidData)
        }
    } else if typ == 0x41 {
        lift(highlighting_from_byte(val), |h| ExtendedFieldAttribute::ExtendedHighlighting(h))
    } else if typ == 0x42 {
        lift(color_from_byte(val), |c| ExtendedFieldAttribute::ForegroundColor(c))
    } else if typ == 0x43 {
        Ok(ExtendedFieldAttribute::CharacterSet(val))
    } else if typ == 0x45 {
        lift(color_from_byte(val), |c| ExtendedFieldAttribute::BackgroundColor(c))
    } else if typ == 0x46 {
        lift(transparency_from_byte(val), |t| ExtendedFieldAttribute::Transparency(t))
    } else if typ == 0xC1 {
        let v = FieldValidation { bits: val };
        if v.wf() {
            Ok(ExtendedFieldAttribute::FieldValidation(v))
        } else {
            Err(StreamFormatError::InvalidData)
        }
    } else if typ == 0xC2 {
        let o = FieldOutline { bits: val };
        if o.wf() {
            Ok(ExtendedFieldAttribute::FieldOutlining(o))
        } else {
            Err(StreamFormatError::InvalidData)
        }
    } else {
        Err(StreamFormatError::InvalidData)
    }
}

impl ExtendedFieldAttribute {
    /// The bitfields carry no reserved bit.
    pub open spec fn wf(self) -> bool {
        match self {
            ExtendedFieldAttribute::FieldAttribute(fa) => fa.wf(),
            ExtendedFieldAttribute::FieldValidation(v) => v.wf(),
            ExtendedFieldAttribute::FieldOutlining(o) => o.wf(),
            _ => true,
        }
    }

    /// The (type, value) pair of this attribute.
    pub open spec fn spec_encoded(self) -> (u8, u8) {
        match self {
            ExtendedFieldAttribute::AllAttributes => (0x00, 0x00),
            ExtendedFieldAttribute::FieldAttribute(fa) => (0xC0, ascii_translatable(fa.bits)),
            ExtendedFieldAttribute::ExtendedHighlighting(h) => (0x41, h.spec_byte()),
            ExtendedFieldAttribute::BackgroundColor(c) => (0x45, c.spec_byte()),
            ExtendedFieldAttribute::ForegroundColor(c) => (0x42, c.spec_byte()),
            ExtendedFieldAttribute::CharacterSet(cs) => (0x43, cs),
            ExtendedFieldAttribute::FieldOutlining(o) => (0xC2, o.bits),
            ExtendedFieldAttribute::Transparency(t) => (0x46, t.spec_byte()),
            ExtendedFieldAttribute::FieldValidation(v) => (0xC1, v.bits),
        }
    }

    pub fn encoded(self) -> (r: (u8, u8))
        ensures
            r == self.spec_encoded(),
    {
        match self {
            ExtendedFieldAttribute::AllAttributes => (0x00, 0x00),
            ExtendedFieldAttribute::FieldAttribute(fa) => (0xC0, fa.to_wire()),
            ExtendedFieldAttribute::ExtendedHighlighting(h) => (0x41, h.to_byte()),
            ExtendedFieldAttribute::BackgroundColor(c) => (0x45, c.to_byte()),
            ExtendedFieldAttribute::ForegroundColor(c) => (0x42, c.to_byte()),
            ExtendedFieldAttribute::CharacterSet(cs) => (0x43, cs),
            ExtendedFieldAttribute::FieldOutlining(o) => (0xC2, o.bits()),
            ExtendedFieldAttribute::Transparency(t) => (0x46, t.to_byte()),
            ExtendedFieldAttribute::FieldValidation(v) => (0xC1, v.bits()),
        }
    }

    /// Appends the (type, value) pair of this attribute.
    pub fn encode_into(&self, output: &mut Vec<u8>)
        ensures
            final(output)@ == old(output)@ + seq![self.spec_encoded().0, self.spec_encoded().1],
    {
        let (typ, val) = self.encoded();
        output.push(typ);
        output.push(val);
        assert(final(output)@ =~= old(output)@ + seq![typ, val]);
    }

    /// Whether the bitfields carry no reserved bit.
    pub fn is_wf(&self) -> (r: bool)
        ensures
            r == self.wf(),
    {
        match self {
            ExtendedFieldAttribute::FieldAttribute(fa) => fa.bits & 0xC2 == 0,
            ExtendedFieldAttribute::FieldValidation(v) => v.bits & 0xF8 == 0,
            ExtendedFieldAttribute::FieldOutlining(o) => o.bits & 0xF0 == 0,
            _ => true,
        }
    }

    /// Reads a (type, value) pair.
    pub fn from_bytes(typ: u8, val: u8) -> (r: Result<ExtendedFieldAttribute, StreamFormatError>)
        ensures
            r == efa_from_bytes(typ, val),
    {
        if typ == 0x00 {
            if val == 0x00 {
                Ok(ExtendedFieldAttribute::AllAttributes)
            } else {
                Err(StreamFormatError::InvalidData)
            }
        } else if typ == 0xC0 {
            match FieldAttribute::from_bits(val & 0x3F) {
                Some(fa) => Ok(ExtendedFieldAttribute::FieldAttribute(fa)),
                None => Err(StreamFormatError::InvalidData),
            }
        } else if typ == 0x41 {
            match Highlighting::try_from_byte(val) {
                Ok(h) => Ok(ExtendedFieldAttribute::ExtendedHighlighting(h)),
                Err(e) => Err(e),
            }
        } else if typ == 0x42 {
            match Color::try_from_byte(val) {
                Ok(c) => Ok(ExtendedFieldAttribute::ForegroundColor(c)),
                Err(e) => Err(e),
            }
        } else if typ == 0x43 {
            Ok(ExtendedFieldAttribute::CharacterSet(val))
        } else if typ == 0x45 {
            match Color::try_from_byte(val) {
                Ok(c) => Ok(ExtendedFieldAttribute::BackgroundColor(c)),
                Err(e) => Err(e),
            }
        } else if typ == 0x46 {
            match Transparency::try_from_byte(val) {
                Ok(t) => Ok(ExtendedFieldAttribute::Transparency(t)),
                Err(e) => Err(e),
            }
        } else if typ == 0xC1 {
            match FieldValidation::from_bits(val) {
                Some(v) => Ok(ExtendedFieldAttribute::FieldValidation(v)),
                None => Err(StreamFormatError::InvalidData),
            }
        } else if typ == 0xC2 {
            match FieldOutline::from_bits(val) {
                Some(o) => Ok(ExtendedFieldAttribute::FieldOutlining(o)),
                None => Err(StreamFormatError::InvalidData),
            }
        } else {
            Err(StreamFormatError::InvalidData)
        }
    }

    /// Reads an attribute from exactly two bytes; any other length is
    /// `UnexpectedEOR`.
    pub fn try_from_slice(value: &[u8]) -> (r: Result<ExtendedFieldAttribute, StreamFormatError>)
        ensures
            value@.len() != 2 ==> r == Err::<ExtendedFieldAttribute, StreamFormatError>(StreamFormatError::UnexpectedEOR),
            value@.len() == 2 ==> r == efa_from_bytes(value@[0], value@[1]),
    {
        if value.len() != 2 {
            return Err(StreamFormatError::UnexpectedEOR);
        }
        ExtendedFieldAttribute::from_bytes(value[0], value[1])
    }
}

/// Reading back the pair of a well-formed attribute gives the attribute; for
/// a field attribute the translation of its bits is undone by the mask.
pub proof fn lemma_efa_round_trip(e: ExtendedFieldAttribute)
    requires
        e.wf(),
    ensures
        efa_from_bytes(e.spec_encoded().0, e.spec_encoded().1) == Ok::<ExtendedFieldAttribute, StreamFormatError>(e),
{
    match e {
        ExtendedFieldAttribute::FieldAttribute(fa) => {
            let b = fa.bits;
            assert(b & 0xC2 == 0 ==> b < 0x40) by (bit_vector);
            lemma_translatable_keeps_low_bits(b);
            let w = ascii_translatable(b);
            assert(w & 0x3F == b);
            assert(FieldAttribute { bits: w & 0x3F } == fa);
        },
        ExtendedFieldAttribute::ExtendedHighlighting(h) => lemma_highlighting_round_trip(h),
        ExtendedFieldAttribute::ForegroundColor(c) => lemma_color_round_trip(c),
        ExtendedFieldAttribute::BackgroundColor(c) => lemma_color_round_trip(c),
        ExtendedFieldAttribute::Transparency(t) => lemma_transparency_round_trip(t),
        _ => {},
    }
}

/// The field attribute byte of a start-field order reads back, through the
/// mask, as the bits it was made from.
pub proof fn lemma_field_attribute_round_trip(fa: FieldAttribute)
    requires
        fa.wf(),
    ensures
        fa.spec_wire() >= 0x40,
        fa.spec_wire() & 0x3F == fa.bits,
{
    let b = fa.bits;
    assert(b & 0xC2 == 0 ==> b < 0x40) by (bit_vector);
    lemma_translatable_keeps_low_bits(b);
}

} // verus!
