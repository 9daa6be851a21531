//! Single-byte translation between Latin-1 text and an EBCDIC code page.

mod cp037;

use vstd::prelude::*;

pub use cp037::{cp037_decode, cp037_encode};

verus! {

/// EBCDIC space, the byte that every unmappable or control character becomes.
pub const EBCDIC_SPACE: u8 = 0x40;

/// A single-byte code page.
#[derive(Clone, Copy, Debug, PartialEq, Eq, Structural)]
pub enum Encoding {
    CP037,
}

impl Encoding {
    /// The code page byte for a Latin-1 code point.
    pub open spec fn encode_spec(self, c: u8) -> u8 {
        match self {
            Encoding::CP037 => cp037_encode(c),
        }
    }

    /// The Latin-1 code point for a code page byte.
    pub open spec fn decode_spec(self, b: u8) -> u8 {
        match self {
            Encoding::CP037 => cp037_decode(b),
        }
    }

    /// What a character of text becomes on the wire: its table entry, raised
    /// to the EBCDIC space where the entry would fall among the order codes,
    /// and the EBCDIC space outright for a character beyond Latin-1.
    pub open spec fn encode_char(self, c: char) -> u8 {
        if (c as u32) < 256 {
            let code = self.encode_spec(c as u32 as u8);
            if code < EBCDIC_SPACE {
                EBCDIC_SPACE
            } else {
                code
            }
        } else {
            EBCDIC_SPACE
        }
    }

    /// What a byte of text reads as.
    pub open spec fn decode_char(self, b: u8) -> char {
        self.decode_spec(b) as char
    }

    pub fn encode_byte(&self, c: u8) -> (r: u8)
        ensures
            r == self.encode_spec(c),
    {
        match self {
            Encoding::CP037 => cp037::encode_byte(c),
        }
    }

    pub fn decode_byte(&self, b: u8) -> (r: u8)
        ensures
            r == self.decode_spec(b),
    {
        match self {
            Encoding::CP037 => cp037::decode_byte(b),
        }
    }

    /// The 256 entries from Latin-1 code point to code page byte.
    pub fn encode_table(&self) -> (r: Vec<u8>)
        ensures
            r@.len() == 256,
            forall|i: int| 0 <= i < 256 ==> r@[i] == self.encode_spec(i as u8),
    {
        let mut t: Vec<u8> = Vec::new();
        let mut i: usize = 0;
        while i < 256
            invariant
                i <= 256,
                t@.len() == i,
                forall|j: int| 0 <= j < i ==> t@[j] == self.encode_spec(j as u8),
            decreases 256 - i,
        {
            t.push(self.encode_byte(i as u8));
            i += 1;
        }
        t
    }

    /// The 256 entries from code page byte to Latin-1 code point.
    pub fn decode_table(&self) -> (r: Vec<u8>)
        ensures
            r@.len() == 256,
            forall|i: int| 0 <= i < 256 ==> r@[i] == self.decode_spec(i as u8),
    {
        let mut t: Vec<u8> = Vec::new();
        let mut i: usize = 0;
        while i < 256
            invariant
                i <= 256,
                t@.len() == i,
                forall|j: int| 0 <= j < i ==> t@[j] == self.decode_spec(j as u8),
            decreases 256 - i,
        {
            t.push(self.decode_byte(i as u8));
            i += 1;
        }
        t
    }

    pub fn encode_char_exec(&self, c: char) -> (r: u8)
        ensures
            r == self.encode_char(c),
    {
        let idx = c as u32;
        if idx < 256 {
            let code = self.encode_byte(idx as u8);
            if code < EBCDIC_SPACE {
                EBCDIC_SPACE
            } else {
                code
            }
        } else {
            EBCDIC_SPACE
        }
    }

    pub fn decode_char_exec(&self, b: u8) -> (r: char)
        ensures
            r == self.decode_char(b),
    {
        self.decode_byte(b) as char
    }
}

/// Encodes each character of `stream` for the wire.
pub fn encode_ascii_to(stream: &[char], encoding: &Encoding) -> (r: Vec<u8>)
    ensures
        r@ == stream@.map_values(|c: char| encoding.encode_char(c)),
{
    let mut out: Vec<u8> = Vec::new();
    let mut i: usize = 0;
    while i < stream.len()
        invariant
            i <= stream@.len(),
            out@ == stream@.subrange(0, i as int).map_values(|c: char| encoding.encode_char(c)),
        decreases stream@.len() - i,
    {
        out.push(encoding.encode_char_exec(stream[i]));
        i += 1;
        assert(stream@.subrange(0, i as int) == stream@.subrange(0, i - 1 as int).push(stream@[i - 1]));
    }
    assert(stream@.subrange(0, stream@.len() as int) == stream@);
    out
}

/// Decodes each byte of `stream`, with no filtering.
pub fn decode_to_ascii(stream: &[u8], encoding: &Encoding) -> (r: Vec<char>)
    ensures
        r@ == stream@.map_values(|b: u8| encoding.decode_char(b)),
{
    let mut out: Vec<char> = Vec::new();
    let mut i: usize = 0;
    while i < stream.len()
        invariant
            i <= stream@.len(),
            out@ == stream@.subrange(0, i as int).map_values(|b: u8| encoding.decode_char(b)),
        decreases stream@.len() - i,
    {
        out.push(encoding.decode_char_exec(stream[i]));
        i += 1;
        assert(stream@.subrange(0, i as int) == stream@.subrange(0, i - 1 as int).push(stream@[i - 1]));
    }
    assert(stream@.subrange(0, stream@.len() as int) == stream@);
    out
}

/// Decoding undoes encoding on every Latin-1 code point: the decode table is
/// a left inverse of the encode table over its whole domain.
pub proof fn lemma_decode_left_inverse(encoding: Encoding, c: u8)
    ensures
        encoding.decode_spec(encoding.encode_spec(c)) == c,
{
}

/// Every character encodes to the EBCDIC space or above, so text never
/// produces an order code.
pub proof fn lemma_encode_floor(encoding: Encoding, c: char)
    ensures
        encoding.encode_char(c) >= EBCDIC_SPACE,
{
}

/// A character beyond Latin-1 encodes to the EBCDIC space.
pub proof fn lemma_unmappable_is_space(encoding: Encoding, c: char)
    requires
        c as u32 >= 256,
    ensures
        encoding.encode_char(c) == EBCDIC_SPACE,
{
}

/// A printable ASCII character survives encoding followed by decoding.
pub proof fn lemma_printable_round_trip(encoding: Encoding, c: char)
    requires
        0x20 <= c as u32 <= 0x7E,
    ensures
        encoding.decode_char(encoding.encode_char(c)) == c,
{
    lemma_decode_left_inverse(encoding, c as u32 as u8);
}

} // verus!
