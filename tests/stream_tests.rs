use rust3270::server::aid::AID;
use rust3270::server::color::Color;
use rust3270::server::extended_field_attributes::{ExtendedFieldAttribute, FieldOutline, FieldValidation};
use rust3270::server::highlighting::Highlighting;
use rust3270::server::stream::{
    parse_addr, BufferAddressCalculator, IncomingRecord, StreamFormatError, WriteCommand, WriteCommandCode,
    WriteOrder,
};
use rust3270::server::transparency::Transparency;
use rust3270::server::wcc::{make_ascii_translatable, FieldAttribute, WCC};

fn fa(bits: u8) -> FieldAttribute {
    FieldAttribute::from_bits(bits).unwrap()
}

fn order_bytes(order: &WriteOrder) -> Vec<u8> {
    let mut out = Vec::new();
    order.serialize(&mut out);
    out
}

#[test]
fn simple_write_command() {
    let cmd = WriteCommand {
        command: WriteCommandCode::Write,
        wcc: WCC { bits: WCC::RESET | WCC::KBD_RESTORE },
        orders: vec![WriteOrder::SetBufferAddress(0), WriteOrder::SendText("Hi".to_string())],
    };
    let mut out = Vec::new();
    cmd.serialize(&mut out);
    assert_eq!(out, vec![0xF1, 0x42, 0x11, 0x00, 0x00, 0xC8, 0x89]);
    assert_eq!(cmd.to_bytes(), out);
}

#[test]
fn wcc_low_bits_are_translated() {
    let wcc = WCC { bits: WCC::RESET_MDT | WCC::KBD_RESTORE };
    assert_eq!(wcc.to_ascii_compat(), 0xC3);
    assert_eq!(make_ascii_translatable(0x00), 0x40);
    assert_eq!(make_ascii_translatable(0x20), 0x60);
    assert_eq!(make_ascii_translatable(0x3F), 0x7F);
    assert_eq!(make_ascii_translatable(0x42), 0x42);
}

#[test]
fn command_codes() {
    assert_eq!(WriteCommandCode::Write.to_command_code(), 0xF1);
    assert_eq!(WriteCommandCode::EraseWrite.to_command_code(), 0xF5);
    assert_eq!(WriteCommandCode::EraseWriteAlternate.to_command_code(), 0x7E);
    assert_eq!(WriteCommandCode::EraseAllUnprotected.to_command_code(), 0x6F);
    assert_eq!(WriteCommandCode::WriteStructuredField.to_command_code(), 0xF3);
}

#[test]
fn order_wire_forms() {
    let protected = fa(FieldAttribute::PROTECTED);
    assert_eq!(order_bytes(&WriteOrder::StartField(protected)), vec![0x1D, 0x60]);
    assert_eq!(
        order_bytes(&WriteOrder::StartFieldExtended(vec![
            ExtendedFieldAttribute::FieldAttribute(protected),
            ExtendedFieldAttribute::ForegroundColor(Color::Red),
        ])),
        vec![0x29, 0x02, 0xC0, 0x60, 0x42, 0xF2]
    );
    assert_eq!(order_bytes(&WriteOrder::SetBufferAddress(0x123)), vec![0x11, 0x01, 0x23]);
    assert_eq!(
        order_bytes(&WriteOrder::SetAttribute(ExtendedFieldAttribute::ExtendedHighlighting(Highlighting::Blink))),
        vec![0x28, 0x41, 0xF1]
    );
    assert_eq!(order_bytes(&WriteOrder::ModifyField(vec![])), vec![0x2C, 0x00]);
    assert_eq!(order_bytes(&WriteOrder::InsertCursor(5)), vec![0x13, 0x00, 0x05]);
    assert_eq!(order_bytes(&WriteOrder::ProgramTab), vec![0x05]);
    assert_eq!(order_bytes(&WriteOrder::RepeatToAddress(0x100, 'A')), vec![0x3C, 0x01, 0x00, 0xC1]);
    assert_eq!(order_bytes(&WriteOrder::EraseUnprotectedToAddress(0x7FF)), vec![0x12, 0x07, 0xFF]);
    assert_eq!(order_bytes(&WriteOrder::GraphicEscape(0xAB)), vec![0x08, 0xAB]);
    assert_eq!(order_bytes(&WriteOrder::SendText("a\u{1}".to_string())), vec![0x81, 0x40]);
}

#[test]
fn address_parse_both_schemes() {
    let screen = BufferAddressCalculator { width: 80, height: 24 };
    let a = parse_addr(&[0x40, 0x41]).unwrap();
    assert_eq!(a, 0x001);
    assert_eq!(screen.decode_address(a), (0, 1));
    let b = parse_addr(&[0x01, 0x50]).unwrap();
    assert_eq!(b, 0x0150);
    assert_eq!(screen.decode_address(b), (4, 16));
    assert_eq!(parse_addr(&[0xFF, 0xFF]), Ok(0x0FFF));
    assert_eq!(parse_addr(&[0x3F, 0xFF]), Ok(0x3FFF));
    assert_eq!(parse_addr(&[0x80, 0x00]), Err(StreamFormatError::InvalidData));
}

#[test]
fn address_calculator() {
    let screen = BufferAddressCalculator { width: 80, height: 24 };
    assert_eq!(screen.encode_address(1, 1), 0);
    assert_eq!(screen.encode_address(1, 31), 30);
    assert_eq!(screen.encode_address(20, 10), 1529);
    assert_eq!(screen.last_address(), 1919);
    assert_eq!(screen.decode_address(screen.encode_address(20, 10)), (19, 9));
    assert_eq!(screen.decode_address(screen.encode_address(24, 80)), (23, 79));
}

#[test]
fn inbound_record() {
    let rec = IncomingRecord::parse_record(&[0xF1, 0x40, 0xC1, 0x1D, 0x60, 0xC8, 0x89]).unwrap();
    assert_eq!(rec.aid, AID::Enter);
    assert_eq!(rec.addr, 1);
    assert_eq!(
        rec.orders,
        vec![WriteOrder::StartField(fa(0x20)), WriteOrder::SendText("Hi".to_string())]
    );
}

#[test]
fn inbound_errors() {
    assert_eq!(
        IncomingRecord::parse_record(&[0x00, 0x40, 0x40]),
        Err(StreamFormatError::InvalidAID { aid: 0x00 })
    );
    assert_eq!(IncomingRecord::parse_record(&[0x7D, 0x40]), Err(StreamFormatError::UnexpectedEOR));
    assert_eq!(IncomingRecord::parse_record(&[0x7D, 0x40, 0x40, 0x1D]), Err(StreamFormatError::UnexpectedEOR));
    assert_eq!(
        IncomingRecord::parse_record(&[0x7D, 0x40, 0x40, 0x29, 0x02, 0x41, 0xF1]),
        Err(StreamFormatError::UnexpectedEOR)
    );
    assert_eq!(IncomingRecord::parse_record(&[0x7D, 0x40, 0x40, 0x01]), Err(StreamFormatError::InvalidData));
    assert_eq!(IncomingRecord::parse_record(&[0x7D, 0x80, 0x00]), Err(StreamFormatError::InvalidData));
    assert_eq!(IncomingRecord::parse_record(&[0x7D, 0x40, 0x40, 0x1D, 0x02]), Err(StreamFormatError::InvalidData));
    assert_eq!(
        IncomingRecord::parse_record(&[0x7D, 0x40, 0x40, 0x28, 0x42, 0x01]),
        Err(StreamFormatError::InvalidData)
    );
}

#[test]
fn inbound_short_orders() {
    let rec = IncomingRecord::parse_record(&[0x7D, 0x00, 0x00, 0x3C, 0x00, 0x10, 0xC1, 0x08, 0x12, 0x05]).unwrap();
    assert_eq!(rec.aid, AID::Enter);
    assert_eq!(
        rec.orders,
        vec![WriteOrder::RepeatToAddress(0x10, 'A'), WriteOrder::GraphicEscape(0x12), WriteOrder::ProgramTab]
    );
    assert_eq!(IncomingRecord::parse_record(&[0x7D, 0x00, 0x00, 0x08]), Err(StreamFormatError::UnexpectedEOR));
}

#[test]
fn stream_round_trip() {
    let orders = vec![
        WriteOrder::SetBufferAddress(0x123),
        WriteOrder::StartField(fa(FieldAttribute::PROTECTED | FieldAttribute::MDT)),
        WriteOrder::SendText("Hello".to_string()),
        WriteOrder::StartFieldExtended(vec![
            ExtendedFieldAttribute::FieldAttribute(fa(FieldAttribute::NUMERIC)),
            ExtendedFieldAttribute::BackgroundColor(Color::Turquoise),
            ExtendedFieldAttribute::Transparency(Transparency::Xor),
        ]),
        WriteOrder::InsertCursor(0x3FFF),
        WriteOrder::ModifyField(vec![ExtendedFieldAttribute::AllAttributes]),
        WriteOrder::RepeatToAddress(0x200, 'x'),
        WriteOrder::EraseUnprotectedToAddress(7),
        WriteOrder::ProgramTab,
        WriteOrder::GraphicEscape(0x41),
        WriteOrder::SetAttribute(ExtendedFieldAttribute::CharacterSet(0xF1)),
    ];
    let cmd = WriteCommand { command: WriteCommandCode::EraseWrite, wcc: WCC::empty(), orders: orders.clone() };
    let bytes = cmd.to_bytes();
    let mut record = vec![0x7D, 0x40, 0x40];
    record.extend_from_slice(&bytes[2..]);
    let rec = IncomingRecord::parse_record(&record).unwrap();
    assert_eq!(rec.orders, orders);
}

#[test]
fn attribute_round_trips() {
    let all = [
        ExtendedFieldAttribute::AllAttributes,
        ExtendedFieldAttribute::ExtendedHighlighting(Highlighting::Underscore),
        ExtendedFieldAttribute::ForegroundColor(Color::White),
        ExtendedFieldAttribute::CharacterSet(7),
        ExtendedFieldAttribute::BackgroundColor(Color::Default),
        ExtendedFieldAttribute::Transparency(Transparency::Opaque),
        ExtendedFieldAttribute::FieldAttribute(fa(FieldAttribute::NON_DISPLAY | FieldAttribute::PROTECTED)),
        ExtendedFieldAttribute::FieldValidation(FieldValidation::from_bits(FieldValidation::MANDATORY_FILL).unwrap()),
        ExtendedFieldAttribute::FieldOutlining(FieldOutline::from_bits(FieldOutline::LEFT | FieldOutline::RIGHT).unwrap()),
    ];
    for e in all {
        let (t, v) = e.encoded();
        assert_eq!(ExtendedFieldAttribute::from_bytes(t, v), Ok(e));
        assert_eq!(ExtendedFieldAttribute::try_from_slice(&[t, v]), Ok(e));
    }
    assert_eq!(
        ExtendedFieldAttribute::FieldAttribute(fa(FieldAttribute::PROTECTED)).encoded(),
        (0xC0, 0x60)
    );
    let mut out = vec![0x99];
    ExtendedFieldAttribute::ForegroundColor(Color::Blue).encode_into(&mut out);
    assert_eq!(out, vec![0x99, 0x42, 0xF1]);
}

#[test]
fn attribute_rejections() {
    assert_eq!(ExtendedFieldAttribute::from_bytes(0x00, 0x01), Err(StreamFormatError::InvalidData));
    assert_eq!(ExtendedFieldAttribute::from_bytes(0x44, 0x00), Err(StreamFormatError::InvalidData));
    assert_eq!(ExtendedFieldAttribute::from_bytes(0xC1, 0x08), Err(StreamFormatError::InvalidData));
    assert_eq!(ExtendedFieldAttribute::from_bytes(0xC2, 0x10), Err(StreamFormatError::InvalidData));
    assert_eq!(ExtendedFieldAttribute::from_bytes(0xC0, 0x42), Err(StreamFormatError::InvalidData));
    assert_eq!(ExtendedFieldAttribute::try_from_slice(&[0x41]), Err(StreamFormatError::UnexpectedEOR));
    assert_eq!(Color::try_from_byte(0x01), Err(StreamFormatError::InvalidData));
    assert_eq!(Color::try_from_byte(0xF7), Ok(Color::NeutralFG));
    assert_eq!(Highlighting::try_from_byte(0xF3), Err(StreamFormatError::InvalidData));
    assert_eq!(Highlighting::try_from_byte(0xF4), Ok(Highlighting::Underscore));
    assert_eq!(Transparency::try_from_byte(0xF3), Err(StreamFormatError::InvalidData));
    assert_eq!(Transparency::Or.to_byte(), 0xF0);
    assert_eq!(Color::Grey.to_byte(), 0xFE);
    assert_eq!(AID::try_from_byte(0x00), Err(StreamFormatError::InvalidAID { aid: 0 }));
    assert_eq!(AID::try_from_byte(0x6D), Ok(AID::Clear));
    assert_eq!(FieldAttribute::from_bits(0x02), None);
    assert!(WCC::from_bits(0x80).is_none());
}
