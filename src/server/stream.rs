//! Outbound write commands and inbound records of the 3270 data stream.

use vstd::prelude::*;
use vstd::string::*;

use crate::encoding::Encoding;
use crate::server::aid::{aid_from_byte, AID};
use crate::server::extended_field_attributes::{efa_from_bytes, ExtendedFieldAttribute};
use crate::server::wcc::{FieldAttribute, WCC};

verus! {

/// Why an inbound record could not be read.
#[derive(Clone, Copy, Debug, PartialEq, Eq, Structural)]
pub enum StreamFormatError {
    /// The first byte is no known attention identifier.
    InvalidAID { aid: u8 },
    /// The record ended inside an order.
    UnexpectedEOR,
    /// An unknown order code, an unknown attribute value or a reserved bit.
    InvalidData,
}

/// The command that opens an outbound record.
#[derive(Clone, Copy, Debug, PartialEq, Eq, Structural)]
pub enum WriteCommandCode {
    Write,
    EraseWrite,
    EraseWriteAlternate,
    EraseAllUnprotected,
    WriteStructuredField,
}

impl WriteCommandCode {
    pub open spec fn spec_code(self) -> u8 {
        match self {
            WriteCommandCode::Write => 0xF1,
            WriteCommandCode::EraseWrite => 0xF5,
            WriteCommandCode::EraseWriteAlternate => 0x7E,
            WriteCommandCode::EraseAllUnprotected => 0x6F,
            WriteCommandCode::WriteStructuredField => 0xF3,
        }
    }

    pub fn to_command_code(self) -> (r: u8)
        ensures
            r == self.spec_code(),
    {
        match self {
            WriteCommandCode::Write => 0xF1,
            WriteCommandCode::EraseWrite => 0xF5,
            WriteCommandCode::EraseWriteAlternate => 0x7E,
            WriteCommandCode::EraseAllUnprotected => 0x6F,
            WriteCommandCode::WriteStructuredField => 0xF3,
        }
    }
}

/// Largest number of cells a screen may have: a buffer address has 14 bits.
pub const MAX_CELLS: u32 = 0x4000;

/// Maps 1-based (row, column) positions of a screen to buffer addresses.
#[derive(Clone, Copy, Debug, PartialEq, Eq, Structural)]
pub struct BufferAddressCalculator {
    pub width: u16,
    pub height: u16,
}

impl BufferAddressCalculator {
    /// A screen of at least one cell whose addresses fit in 14 bits.
    pub open spec fn wf(self) -> bool {
        &&& self.width > 0
        &&& self.height > 0
        &&& self.width * self.height <= MAX_CELLS
    }

    /// The address of row `y`, column `x`, both counted from 1.
    pub fn encode_address(self, y: u16, x: u16) -> (r: u16)
        requires
            self.wf(),
            1 <= y <= self.height,
            1 <= x <= self.width,
        ensures
            r == self.width * (y - 1) + (x - 1),
            r < self.width * self.height,
    {
        proof {
            assert(self.width * (y - 1) + (x - 1) < self.width * self.height) by (nonlinear_arith)
                requires
                    1 <= y <= self.height,
                    1 <= x <= self.width,
            ;
        }
        self.width * (y - 1) + (x - 1)
    }

    /// The address of the last cell.
    pub fn last_address(self) -> (r: u16)
        requires
            self.wf(),
        ensures
            r == self.width * self.height - 1,
    {
        proof {
            assert(self.width * self.height >= 1) by (nonlinear_arith)
                requires
                    self.width > 0,
                    self.height > 0,
            ;
        }
        self.width * self.height - 1
    }

    /// The (row, column) of an address, both counted from 0.
    pub fn decode_address(self, addr: u16) -> (r: (u16, u16))
        requires
            self.width > 0,
        ensures
            r == (addr / self.width, addr % self.width),
    {
        (addr / self.width, addr % self.width)
    }
}

/// A position given in 1-based (row, column) decodes to the 0-based
/// (row, column) of the same cell.
pub proof fn lemma_address_round_trip(calc: BufferAddressCalculator, y: u16, x: u16)
    requires
        calc.wf(),
        1 <= y <= calc.height,
        1 <= x <= calc.width,
    ensures
        ({
            let a = calc.width * (y - 1) + (x - 1);
            a / (calc.width as int) == y - 1 && a % (calc.width as int) == x - 1
        }),
{
    let w = calc.width as int;
    let a = w * (y - 1) + (x - 1);
    assert(w * (y - 1) == (y - 1) * w) by (nonlinear_arith);
    vstd::arithmetic::div_mod::lemma_fundamental_div_mod_converse(a, w, y - 1, x - 1);
}

/// One order of a write command.
#[derive(Clone, Debug, PartialEq)]
pub enum WriteOrder {
    StartField(FieldAttribute),
    StartFieldExtended(Vec<ExtendedFieldAttribute>),
    SetBufferAddress(u16),
    SetAttribute(ExtendedFieldAttribute),
    ModifyField(Vec<ExtendedFieldAttribute>),
    InsertCursor(u16),
    ProgramTab,
    RepeatToAddress(u16, char),
    EraseUnprotectedToAddress(u16),
    GraphicEscape(u8),
    SendText(String),
}

/// A write order as a value: lists as sequences, text as characters.
pub enum OrderView {
    StartField(FieldAttribute),
    StartFieldExtended(Seq<ExtendedFieldAttribute>),
    SetBufferAddress(u16),
    SetAttribute(ExtendedFieldAttribute),
    ModifyField(Seq<ExtendedFieldAttribute>),
    InsertCursor(u16),
    ProgramTab,
    RepeatToAddress(u16, char),
    EraseUnprotectedToAddress(u16),
    GraphicEscape(u8),
    SendText(Seq<char>),
}

impl View for WriteOrder {
    type V = OrderView;

    open spec fn view(&self) -> OrderView {
        match self {
            WriteOrder::StartField(fa) => OrderView::StartField(*fa),
            WriteOrder::StartFieldExtended(v) => OrderView::StartFieldExtended(v@),
            WriteOrder::SetBufferAddress(a) => OrderView::SetBufferAddress(*a),
            WriteOrder::SetAttribute(e) => OrderView::SetAttribute(*e),
            WriteOrder::ModifyField(v) => OrderView::ModifyField(v@),
            WriteOrder::InsertCursor(a) => OrderView::InsertCursor(*a),
            WriteOrder::ProgramTab => OrderView::ProgramTab,
            WriteOrder::RepeatToAddress(a, c) => OrderView::RepeatToAddress(*a, *c),
            WriteOrder::EraseUnprotectedToAddress(a) => OrderView::EraseUnprotectedToAddress(*a),
            WriteOrder::GraphicEscape(b) => OrderView::GraphicEscape(*b),
            WriteOrder::SendText(s) => OrderView::SendText(s@),
        }
    }
}

/// A list of attributes that its count byte can carry, none with a reserved bit.
pub open spec fn attrs_wf(attrs: Seq<ExtendedFieldAttribute>) -> bool {
    &&& attrs.len() <= 255
    &&& forall|i: int| 0 <= i < attrs.len() ==> (#[trigger] attrs[i]).wf()
}

impl OrderView {
    /// Operands that the wire form can carry: 14-bit addresses, lists of at
    /// most 255 attributes, no reserved bit set.
    pub open spec fn wf(self) -> bool {
        match self {
            OrderView::StartField(fa) => fa.wf(),
            OrderView::StartFieldExtended(attrs) => attrs_wf(attrs),
            OrderView::SetBufferAddress(a) => a < MAX_CELLS,
            OrderView::SetAttribute(e) => e.wf(),
            OrderView::ModifyField(attrs) => attrs_wf(attrs),
            OrderView::InsertCursor(a) => a < MAX_CELLS,
            OrderView::RepeatToAddress(a, _) => a < MAX_CELLS,
            OrderView::EraseUnprotectedToAddress(a) => a < MAX_CELLS,
            _ => true,
        }
    }
}

/// A 14-bit address as two bytes, high byte first.
pub open spec fn addr_bytes(a: u16) -> Seq<u8> {
    seq![(a / 256) as u8, (a % 256) as u8]
}

/// The (type, value) pairs of a list of attributes.
pub open spec fn attrs_bytes(attrs: Seq<ExtendedFieldAttribute>) -> Seq<u8>
    decreases attrs.len(),
{
    if attrs.len() == 0 {
        seq![]
    } else {
        let e = attrs.last().spec_encoded();
        attrs_bytes(attrs.drop_last()) + seq![e.0, e.1]
    }
}

/// Text as EBCDIC bytes.
pub open spec fn text_bytes(s: Seq<char>) -> Seq<u8> {
    s.map_values(|c: char| Encoding::CP037.encode_char(c))
}

/// The wire form of one order.
pub open spec fn order_bytes(o: OrderView) -> Seq<u8> {
    match o {
        OrderView::StartField(fa) => seq![0x1Du8, fa.spec_wire()],
        OrderView::StartFieldExtended(attrs) => seq![0x29u8, attrs.len() as u8] + attrs_bytes(attrs),
        OrderView::SetBufferAddress(a) => seq![0x11u8] + addr_bytes(a),
        OrderView::SetAttribute(e) => seq![0x28u8, e.spec_encoded().0, e.spec_encoded().1],
        OrderView::ModifyField(attrs) => seq![0x2Cu8, attrs.len() as u8] + attrs_bytes(attrs),
        OrderView::InsertCursor(a) => seq![0x13u8] + addr_bytes(a),
        OrderView::ProgramTab => seq![0x05u8],
        OrderView::RepeatToAddress(a, c) => seq![0x3Cu8] + addr_bytes(a) + seq![
            Encoding::CP037.encode_char(c),
        ],
        OrderView::EraseUnprotectedToAddress(a) => seq![0x12u8] + addr_bytes(a),
        OrderView::GraphicEscape(b) => seq![0x08u8, b],
        OrderView::SendText(s) => text_bytes(s),
    }
}

/// The wire form of a list of orders, one after the other.
pub open spec fn orders_bytes(orders: Seq<OrderView>) -> Seq<u8>
    decreases orders.len(),
{
    if orders.len() == 0 {
        seq![]
    } else {
        orders_bytes(orders.drop_last()) + order_bytes(orders.last())
    }
}

/// The views of a list of orders.
pub open spec fn orders_view(orders: Seq<WriteOrder>) -> Seq<OrderView> {
    orders.map_values(|o: WriteOrder| o@)
}

/// Appends a 14-bit address, high byte first.
fn push_addr(output: &mut Vec<u8>, addr: u16)
    requires
        addr < MAX_CELLS,
    ensures
        final(output)@ == old(output)@ + addr_bytes(addr),
{
    output.push((addr / 256) as u8);
    output.push((addr % 256) as u8);
    assert(final(output)@ =~= old(output)@ + addr_bytes(addr));
}

/// Appends a count byte and the pairs of a list of attributes.
fn push_attrs(output: &mut Vec<u8>, attrs: &Vec<ExtendedFieldAttribute>)
    requires
        attrs@.len() <= 255,
    ensures
        final(output)@ == old(output)@ + seq![attrs@.len() as u8] + attrs_bytes(attrs@),
{
    output.push(attrs.len() as u8);
    let ghost start = output@;
    let mut i: usize = 0;
    while i < attrs.len()
        invariant
            i <= attrs@.len(),
            output@ == start + attrs_bytes(attrs@.subrange(0, i as int)),
        decreases attrs@.len() - i,
    {
        attrs[i].encode_into(output);
        i += 1;
        let ghost pre = attrs@.subrange(0, i as int);
        assert(pre.drop_last() =~= attrs@.subrange(0, i - 1));
    }
    assert(attrs@.subrange(0, attrs@.len() as int) =~= attrs@);
    assert(start =~= old(output)@ + seq![attrs@.len() as u8]);
}

/// Appends the EBCDIC bytes of a text.
fn push_text(output: &mut Vec<u8>, text: &String)
    ensures
        final(output)@ == old(output)@ + text_bytes(text@),
{
    let s = text.as_str();
    let n = s.unicode_len();
    let mut i: usize = 0;
    while i < n
        invariant
            n == text@.len(),
            s@ == text@,
            i <= n,
            output@ == old(output)@ + text_bytes(text@.subrange(0, i as int)),
        decreases n - i,
    {
        let c = s.get_char(i);
        output.push(Encoding::CP037.encode_char_exec(c));
        i += 1;
        assert(text_bytes(text@.subrange(0, i as int)) =~= text_bytes(text@.subrange(0, i - 1)).push(
            Encoding::CP037.encode_char(c),
        ));
    }
    assert(text@.subrange(0, n as int) =~= text@);
}

/// Whether a list of attributes fits its wire form.
fn attrs_fit(attrs: &Vec<ExtendedFieldAttribute>) -> (r: bool)
    ensures
        r == attrs_wf(attrs@),
{
    if attrs.len() > 255 {
        return false;
    }
    let mut i: usize = 0;
    while i < attrs.len()
        invariant
            i <= attrs@.len(),
            forall|j: int| 0 <= j < i ==> (#[trigger] attrs@[j]).wf(),
        decreases attrs@.len() - i,
    {
        if !attrs[i].is_wf() {
            return false;
        }
        i += 1;
    }
    true
}

impl WriteOrder {
    /// Whether the operands of this order fit its wire form.
    pub fn fits_wire(&self) -> (r: bool)
        ensures
            r == self@.wf(),
    {
        match self {
            WriteOrder::StartField(fa) => fa.bits & 0xC2 == 0,
            WriteOrder::StartFieldExtended(attrs) => attrs_fit(attrs),
            WriteOrder::SetBufferAddress(a) => (*a as u32) < MAX_CELLS,
            WriteOrder::SetAttribute(e) => e.is_wf(),
            WriteOrder::ModifyField(attrs) => attrs_fit(attrs),
            WriteOrder::InsertCursor(a) => (*a as u32) < MAX_CELLS,
            WriteOrder::RepeatToAddress(a, _) => (*a as u32) < MAX_CELLS,
            WriteOrder::EraseUnprotectedToAddress(a) => (*a as u32) < MAX_CELLS,
            _ => true,
        }
    }

    /// Appends the wire form of this order.
    pub fn serialize(&self, output: &mut Vec<u8>)
        requires
            self@.wf(),
        ensures
            final(output)@ == old(output)@ + order_bytes(self@),
    {
        match self {
            WriteOrder::StartField(attr) => {
                output.push(0x1D);
                output.push(attr.to_wire());
            },
            WriteOrder::StartFieldExtended(attrs) => {
                output.push(0x29);
                push_attrs(output, attrs);
            },
            WriteOrder::SetBufferAddress(addr) => {
                output.push(0x11);
                push_addr(output, *addr);
            },
            WriteOrder::SetAttribute(attr) => {
                let (typ, val) = attr.encoded();
                output.push(0x28);
                output.push(typ);
                output.push(val);
            },
            WriteOrder::ModifyField(attrs) => {
                output.push(0x2C);
                push_attrs(output, attrs);
            },
            WriteOrder::InsertCursor(addr) => {
                output.push(0x13);
                push_addr(output, *addr);
            },
            WriteOrder::ProgramTab => {
                output.push(0x05);
            },
            WriteOrder::RepeatToAddress(addr, ch) => {
                output.push(0x3C);
                push_addr(output, *addr);
                output.push(Encoding::CP037.encode_char_exec(*ch));
            },
            WriteOrder::EraseUnprotectedToAddress(addr) => {
                output.push(0x12);
                push_addr(output, *addr);
            },
            WriteOrder::GraphicEscape(ch) => {
                output.push(0x08);
                output.push(*ch);
            },
            WriteOrder::SendText(text) => {
                push_text(output, text);
            },
        }
        assert(final(output)@ =~= old(output)@ + order_bytes(self@));
    }
}

/// A write command: its code, its write control character and its orders.
#[derive(Clone, Debug)]
pub struct WriteCommand {
    pub command: WriteCommandCode,
    pub wcc: WCC,
    pub orders: Vec<WriteOrder>,
}

impl WriteCommand {
    /// Every order's operands fit its wire form.
    pub open spec fn wf(&self) -> bool {
        forall|i: int| 0 <= i < self.orders@.len() ==> (#[trigger] self.orders@[i])@.wf()
    }

    /// Whether every order's operands fit its wire form.
    pub fn fits_wire(&self) -> (r: bool)
        ensures
            r == self.wf(),
    {
        let mut i: usize = 0;
        while i < self.orders.len()
            invariant
                i <= self.orders@.len(),
                forall|j: int| 0 <= j < i ==> (#[trigger] self.orders@[j])@.wf(),
            decreases self.orders@.len() - i,
        {
            if !self.orders[i].fits_wire() {
                return false;
            }
            i += 1;
        }
        true
    }

    /// The wire form of this command.
    pub open spec fn spec_bytes(&self) -> Seq<u8> {
        seq![self.command.spec_code(), self.wcc.spec_wire()] + orders_bytes(orders_view(self.orders@))
    }

    /// Appends the wire form of this command.
    pub fn serialize(&self, output: &mut Vec<u8>)
        requires
            self.wf(),
        ensures
            final(output)@ == old(output)@ + self.spec_bytes(),
    {
        output.push(self.command.to_command_code());
        output.push(self.wcc.to_ascii_compat());
        let ghost start = output@;
        let mut i: usize = 0;
        while i < self.orders.len()
            invariant
                self.wf(),
                i <= self.orders@.len(),
                output@ == start + orders_bytes(orders_view(self.orders@.subrange(0, i as int))),
            decreases self.orders@.len() - i,
        {
            self.orders[i].serialize(output);
            i += 1;
            assert(orders_view(self.orders@.subrange(0, i as int)).drop_last() =~= orders_view(
                self.orders@.subrange(0, i - 1),
            ));
        }
        assert(self.orders@.subrange(0, self.orders@.len() as int) =~= self.orders@);
        assert(final(output)@ =~= old(output)@ + self.spec_bytes());
    }

    /// The wire form of this command as a new buffer.
    pub fn to_bytes(&self) -> (r: Vec<u8>)
        requires
            self.wf(),
        ensures
            r@ == self.spec_bytes(),
    {
        let mut result: Vec<u8> = Vec::new();
        self.serialize(&mut result);
        assert(result@ =~= self.spec_bytes());
        result
    }
}


/// An address of two wire bytes: a 14-bit address when the top two bits are
/// 00, a 12-bit address (six bits from each byte) when they are 01 or 11, and
/// no address when they are 10.
pub open spec fn addr_from_bytes(b0: u8, b1: u8) -> Result<u16, StreamFormatError> {
    let top = b0 / 64;
    if top == 0 {
        Ok((b0 as int * 256 + b1 as int) as u16)
    } else if top == 2 {
        Err(StreamFormatError::InvalidData)
    } else {
        Ok(((b0 % 64) as int * 64 + (b1 % 64) as int) as u16)
    }
}

/// Reads a wire address from the first two bytes.
pub fn parse_addr(encoded: &[u8]) -> (r: Result<u16, StreamFormatError>)
    requires
        encoded@.len() >= 2,
    ensures
        r == addr_from_bytes(encoded@[0], encoded@[1]),
        r matches Ok(a) ==> a < MAX_CELLS,
{
    addr_from(encoded[0], encoded[1])
}

fn addr_from(b0: u8, b1: u8) -> (r: Result<u16, StreamFormatError>)
    ensures
        r == addr_from_bytes(b0, b1),
        r matches Ok(a) ==> a < MAX_CELLS,
{
    let top = b0 >> 6;
    proof {
        assert(b0 >> 6 == b0 / 64) by (bit_vector);
    }
    if top == 0 {
        let a = ((b0 as u16) << 8) | b1 as u16;
        proof {
            assert(b0 < 64 ==> ((b0 as u16) << 8) | b1 as u16 == (b0 as u16) * 256 + (b1 as u16))
                by (bit_vector);
        }
        Ok(a)
    } else if top == 1 || top == 3 {
        let a = ((b0 as u16 & 0x3F) << 6) | (b1 as u16 & 0x3F);
        proof {
            assert(((b0 as u16 & 0x3F) << 6) | (b1 as u16 & 0x3F) == ((b0 % 64) as u16) * 64 + ((b1
                % 64) as u16)) by (bit_vector);
        }
        Ok(a)
    } else {
        Err(StreamFormatError::InvalidData)
    }
}

/// Every address that two wire bytes can give has 14 bits.
pub proof fn lemma_addr_in_range(b0: u8, b1: u8)
    ensures
        addr_from_bytes(b0, b1) matches Ok(a) ==> a < MAX_CELLS,
{
}

/// Number of leading bytes that are text (0x40 and above).
pub open spec fn text_run_len(r: Seq<u8>) -> nat
    decreases r.len(),
{
    if r.len() == 0 || r[0] < 0x40 {
        0
    } else {
        1 + text_run_len(r.drop_first())
    }
}

/// EBCDIC bytes read as text.
pub open spec fn text_of(b: Seq<u8>) -> Seq<char> {
    b.map_values(|x: u8| Encoding::CP037.decode_char(x))
}

/// The attributes of a run of (type, value) pairs.
pub open spec fn attrs_from_bytes(b: Seq<u8>) -> Result<Seq<ExtendedFieldAttribute>, StreamFormatError>
    decreases b.len(),
{
    if b.len() < 2 {
        Ok(seq![])
    } else {
        match efa_from_bytes(b[0], b[1]) {
            Err(e) => Err(e),
            Ok(a) => match attrs_from_bytes(b.subrange(2, b.len() as int)) {
                Ok(t) => Ok(seq![a] + t),
                Err(e) => Err(e),
            },
        }
    }
}

/// The order at the head of a nonempty inbound byte run, with the number of
/// bytes it takes.
pub open spec fn order_from_bytes(r: Seq<u8>) -> Result<(OrderView, int), StreamFormatError> {
    let op = r[0];
    if op == 0x1D {
        if r.len() < 2 {
            Err(StreamFormatError::UnexpectedEOR)
        } else {
            let fa = FieldAttribute { bits: r[1] & 0x3F };
            if fa.wf() {
                Ok((OrderView::StartField(fa), 2))
            } else {
                Err(StreamFormatError::InvalidData)
            }
        }
    } else if op == 0x29 || op == 0x2C {
        if r.len() < 2 {
            Err(StreamFormatError::UnexpectedEOR)
        } else {
            let n = 2 + 2 * r[1];
            if r.len() < n {
                Err(StreamFormatError::UnexpectedEOR)
            } else {
                match attrs_from_bytes(r.subrange(2, n)) {
                    Err(e) => Err(e),
                    Ok(a) => Ok(
                        (
                            if op == 0x29 {
                                OrderView::StartFieldExtended(a)
                            } else {
                                OrderView::ModifyField(a)
                            },
                            n,
                        ),
                    ),
                }
            }
        }
    } else if op == 0x11 || op == 0x13 || op == 0x12 {
        if r.len() < 3 {
            Err(StreamFormatError::UnexpectedEOR)
        } else {
            match addr_from_bytes(r[1], r[2]) {
                Err(e) => Err(e),
                Ok(a) => Ok(
                    (
                        if op == 0x11 {
                            OrderView::SetBufferAddress(a)
                        } else if op == 0x13 {
                            OrderView::InsertCursor(a)
                        } else {
                            OrderView::EraseUnprotectedToAddress(a)
                        },
                        3,
                    ),
                ),
            }
        }
    } else if op == 0x28 {
        if r.len() < 3 {
            Err(StreamFormatError::UnexpectedEOR)
        } else {
            match efa_from_bytes(r[1], r[2]) {
                Err(e) => Err(e),
                Ok(e) => Ok((OrderView::SetAttribute(e), 3)),
            }
        }
    } else if op == 0x05 {
        Ok((OrderView::ProgramTab, 1))
    } else if op == 0x3C {
        if r.len() < 4 {
            Err(StreamFormatError::UnexpectedEOR)
        } else {
            match addr_from_bytes(r[1], r[2]) {
                Err(e) => Err(e),
                Ok(a) => Ok((OrderView::RepeatToAddress(a, Encoding::CP037.decode_char(r[3])), 4)),
            }
        }
    } else if op == 0x08 {
        if r.len() < 2 {
            Err(StreamFormatError::UnexpectedEOR)
        } else {
            Ok((OrderView::GraphicEscape(r[1]), 2))
        }
    } else if op >= 0x40 {
        let n = text_run_len(r) as int;
        Ok((OrderView::SendText(text_of(r.subrange(0, n))), n))
    } else {
        Err(StreamFormatError::InvalidData)
    }
}

/// The orders of an inbound byte run, read from the front; the first error
/// ends the reading.
pub open spec fn orders_from_bytes(r: Seq<u8>) -> Result<Seq<OrderView>, StreamFormatError>
    decreases r.len(),
{
    if r.len() == 0 {
        Ok(seq![])
    } else {
        match order_from_bytes(r) {
            Err(e) => Err(e),
            Ok((o, n)) => if 0 < n <= r.len() {
                match orders_from_bytes(r.subrange(n, r.len() as int)) {
                    Ok(t) => Ok(seq![o] + t),
                    Err(e) => Err(e),
                }
            } else {
                Err(StreamFormatError::InvalidData)
            },
        }
    }
}

/// An inbound record: attention identifier, cursor address and orders.
pub open spec fn record_from_bytes(b: Seq<u8>) -> Result<(AID, u16, Seq<OrderView>), StreamFormatError> {
    if b.len() < 3 {
        Err(StreamFormatError::UnexpectedEOR)
    } else {
        match aid_from_byte(b[0]) {
            None => Err(StreamFormatError::InvalidAID { aid: b[0] }),
            Some(aid) => match addr_from_bytes(b[1], b[2]) {
                Err(e) => Err(e),
                Ok(addr) => match orders_from_bytes(b.subrange(3, b.len() as int)) {
                    Ok(orders) => Ok((aid, addr, orders)),
                    Err(e) => Err(e),
                },
            },
        }
    }
}

/// What is already read, in front of what the rest gives.
pub open spec fn prepend<A>(acc: Seq<A>, rest: Result<Seq<A>, StreamFormatError>) -> Result<Seq<A>, StreamFormatError> {
    match rest {
        Ok(t) => Ok(acc + t),
        Err(e) => Err(e),
    }
}

/// The text run ends at the first byte below 0x40.
pub proof fn lemma_text_run_len(r: Seq<u8>, k: int)
    requires
        0 <= k <= r.len(),
        forall|i: int| 0 <= i < k ==> r[i] >= 0x40,
        k == r.len() || r[k] < 0x40,
    ensures
        text_run_len(r) == k,
    decreases k,
{
    if k > 0 {
        lemma_text_run_len(r.drop_first(), k - 1);
    }
}

/// Relies on String::push: appends one character to the string.
#[verifier::external_body]
fn push_char(s: &mut String, c: char)
    ensures
        final(s)@ == old(s)@.push(c),
{
    s.push(c);
}

/// Reads `count` (type, value) pairs from `record` at `start`.
fn parse_attrs(record: &[u8], start: usize, count: usize) -> (r: Result<Vec<ExtendedFieldAttribute>, StreamFormatError>)
    requires
        start + 2 * count <= record@.len(),
    ensures
        ({
            let spec_r = attrs_from_bytes(record@.subrange(start as int, start + 2 * count));
            match r {
                Ok(v) => spec_r == Ok::<Seq<ExtendedFieldAttribute>, StreamFormatError>(v@),
                Err(e) => spec_r == Err::<Seq<ExtendedFieldAttribute>, StreamFormatError>(e),
            }
        }),
{
    let ghost seg = record@.subrange(start as int, start + 2 * count);
    let mut attrs: Vec<ExtendedFieldAttribute> = Vec::new();
    let len = record.len();
    assert(seg.subrange(0, seg.len() as int) =~= seg);
    proof {
        match attrs_from_bytes(seg) {
            Ok(t) => assert(attrs@ + t =~= t),
            Err(_) => {},
        }
    }
    let mut i: usize = 0;
    while i < count
        invariant
            len == record@.len(),
            start + 2 * count <= record@.len(),
            seg == record@.subrange(start as int, start + 2 * count),
            i <= count,
            attrs_from_bytes(seg) == prepend(attrs@, attrs_from_bytes(seg.subrange(2 * i, seg.len() as int))),
        decreases count - i,
    {
        let ghost rest = seg.subrange(2 * i, seg.len() as int);
        assert(rest.subrange(2, rest.len() as int) =~= seg.subrange(2 * (i + 1), seg.len() as int));
        let p = start + 2 * i;
        match ExtendedFieldAttribute::from_bytes(record[p], record[p + 1]) {
            Ok(a) => {
                let ghost before = attrs@;
                attrs.push(a);
                proof {
                    match attrs_from_bytes(seg.subrange(2 * (i + 1), seg.len() as int)) {
                        Ok(t) => {
                            assert(before + (seq![a] + t) =~= attrs@ + t);
                        },
                        Err(_) => {},
                    }
                }
            },
            Err(e) => {
                return Err(e);
            },
        }
        i += 1;
    }
    assert(seg.subrange(2 * count, seg.len() as int).len() == 0);
    assert(attrs@ + seq![] =~= attrs@);
    Ok(attrs)
}


/// Reads the order at `pos`, with the number of bytes it takes.
fn parse_order(record: &[u8], pos: usize) -> (r: Result<(WriteOrder, usize), StreamFormatError>)
    requires
        pos < record@.len(),
    ensures
        ({
            let rest = record@.subrange(pos as int, record@.len() as int);
            match r {
                Ok((o, n)) => order_from_bytes(rest) == Ok::<(OrderView, int), StreamFormatError>((o@, n as int))
                    && 0 < n <= rest.len(),
                Err(e) => order_from_bytes(rest) == Err::<(OrderView, int), StreamFormatError>(e),
            }
        }),
{
    let ghost rest = record@.subrange(pos as int, record@.len() as int);
    let len = record.len();
    let left = len - pos;
    let op = record[pos];
    if op == 0x1D {
        if left < 2 {
            return Err(StreamFormatError::UnexpectedEOR);
        }
        match FieldAttribute::from_bits(record[pos + 1] & 0x3F) {
            Some(fa) => Ok((WriteOrder::StartField(fa), 2)),
            None => Err(StreamFormatError::InvalidData),
        }
    } else if op == 0x29 || op == 0x2C {
        if left < 2 {
            return Err(StreamFormatError::UnexpectedEOR);
        }
        let count = record[pos + 1] as usize;
        if left - 2 < 2 * count {
            return Err(StreamFormatError::UnexpectedEOR);
        }
        assert(rest.subrange(2, 2 + 2 * count) =~= record@.subrange(pos + 2, pos + 2 + 2 * count));
        match parse_attrs(record, pos + 2, count) {
            Ok(v) => {
                let o = if op == 0x29 {
                    WriteOrder::StartFieldExtended(v)
                } else {
                    WriteOrder::ModifyField(v)
                };
                Ok((o, 2 + 2 * count))
            },
            Err(e) => Err(e),
        }
    } else if op == 0x11 || op == 0x13 || op == 0x12 {
        if left < 3 {
            return Err(StreamFormatError::UnexpectedEOR);
        }
        match addr_from(record[pos + 1], record[pos + 2]) {
            Ok(a) => {
                let o = if op == 0x11 {
                    WriteOrder::SetBufferAddress(a)
                } else if op == 0x13 {
                    WriteOrder::InsertCursor(a)
                } else {
                    WriteOrder::EraseUnprotectedToAddress(a)
                };
                Ok((o, 3))
            },
            Err(e) => Err(e),
        }
    } else if op == 0x28 {
        if left < 3 {
            return Err(StreamFormatError::UnexpectedEOR);
        }
        match ExtendedFieldAttribute::from_bytes(record[pos + 1], record[pos + 2]) {
            Ok(e) => Ok((WriteOrder::SetAttribute(e), 3)),
            Err(e) => Err(e),
        }
    } else if op == 0x05 {
        Ok((WriteOrder::ProgramTab, 1))
    } else if op == 0x3C {
        if left < 4 {
            return Err(StreamFormatError::UnexpectedEOR);
        }
        match addr_from(record[pos + 1], record[pos + 2]) {
            Ok(a) => {
                let c = Encoding::CP037.decode_char_exec(record[pos + 3]);
                Ok((WriteOrder::RepeatToAddress(a, c), 4))
            },
            Err(e) => Err(e),
        }
    } else if op == 0x08 {
        if left < 2 {
            return Err(StreamFormatError::UnexpectedEOR);
        }
        Ok((WriteOrder::GraphicEscape(record[pos + 1]), 2))
    } else if op >= 0x40 {
        let mut text = String::new();
        let mut j: usize = pos;
        while j < len && record[j] >= 0x40
            invariant
                len == record@.len(),
                pos <= j <= len,
                forall|k: int| pos <= k < j ==> record@[k] >= 0x40,
                text@ == text_of(record@.subrange(pos as int, j as int)),
            decreases len - j,
        {
            let c = Encoding::CP037.decode_char_exec(record[j]);
            push_char(&mut text, c);
            j += 1;
            assert(text_of(record@.subrange(pos as int, j as int)) =~= text_of(
                record@.subrange(pos as int, j - 1),
            ).push(c));
        }
        proof {
            lemma_text_run_len(rest, j - pos);
            assert(rest.subrange(0, j - pos) =~= record@.subrange(pos as int, j as int));
        }
        Ok((WriteOrder::SendText(text), j - pos))
    } else {
        Err(StreamFormatError::InvalidData)
    }
}

/// A record sent by the terminal: the key that sent it, the cursor address
/// and the orders that carry the modified fields.
#[derive(Clone, Debug, PartialEq)]
pub struct IncomingRecord {
    pub aid: AID,
    pub addr: u16,
    pub orders: Vec<WriteOrder>,
}

impl IncomingRecord {
    /// Reads an inbound record, telnet escapes and end-of-record mark
    /// already removed.
    pub fn parse_record(record: &[u8]) -> (r: Result<IncomingRecord, StreamFormatError>)
        ensures
            match r {
                Ok(rec) => record_from_bytes(record@) == Ok::<(AID, u16, Seq<OrderView>), StreamFormatError>(
                    (rec.aid, rec.addr, orders_view(rec.orders@)),
                ),
                Err(e) => record_from_bytes(record@) == Err::<(AID, u16, Seq<OrderView>), StreamFormatError>(e),
            },
    {
        let len = record.len();
        if len < 3 {
            return Err(StreamFormatError::UnexpectedEOR);
        }
        let aid = match AID::try_from_byte(record[0]) {
            Ok(a) => a,
            Err(e) => return Err(e),
        };
        let addr = match addr_from(record[1], record[2]) {
            Ok(a) => a,
            Err(e) => return Err(e),
        };
        let mut orders: Vec<WriteOrder> = Vec::new();
        let ghost body = record@.subrange(3, len as int);
        proof {
            match orders_from_bytes(body) {
                Ok(t) => assert(orders_view(orders@) + t =~= t),
                Err(_) => {},
            }
        }
        let mut pos: usize = 3;
        while pos < len
            invariant
                len == record@.len(),
                3 <= pos <= len,
                aid_from_byte(record@[0]) == Some(aid),
                addr_from_bytes(record@[1], record@[2]) == Ok::<u16, StreamFormatError>(addr),
                body == record@.subrange(3, len as int),
                orders_from_bytes(body) == prepend(
                    orders_view(orders@),
                    orders_from_bytes(record@.subrange(pos as int, len as int)),
                ),
            decreases len - pos,
        {
            let ghost rest = record@.subrange(pos as int, len as int);
            match parse_order(record, pos) {
                Ok((o, n)) => {
                    let ghost before = orders_view(orders@);
                    orders.push(o);
                    proof {
                        let next = record@.subrange(pos + n, len as int);
                        assert(rest.subrange(n as int, rest.len() as int) =~= next);
                        assert(orders_view(orders@) =~= before.push(o@));
                        match orders_from_bytes(next) {
                            Ok(t) => assert(before + (seq![o@] + t) =~= orders_view(orders@) + t),
                            Err(_) => {},
                        }
                    }
                    pos += n;
                },
                Err(e) => {
                    assert(rest.len() > 0);
                    assert(orders_from_bytes(rest) == Err::<Seq<OrderView>, StreamFormatError>(e));
                    assert(orders_from_bytes(body) == Err::<Seq<OrderView>, StreamFormatError>(e));
                    return Err(e);
                },
            }
        }
        assert(orders_view(orders@) + seq![] =~= orders_view(orders@));
        Ok(IncomingRecord { aid, addr, orders })
    }
}

} // verus!
