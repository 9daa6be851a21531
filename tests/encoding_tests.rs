use rust3270::encoding::{decode_to_ascii, encode_ascii_to, Encoding};

fn encoding_under_test() -> Encoding {
    Encoding::CP037
}

fn check_ascii_letters_encoding(encoding: &Encoding) {
    let input = ['A', 'Z', 'a', 'z'];
    let expected = [0xC1, 0xE9, 0x81, 0xA9];
    let result: Vec<u8> = encode_ascii_to(&input, encoding);
    assert_eq!(result, expected);
}

fn check_ascii_letters_decoding(encoding: &Encoding) {
    let input = [0xC1, 0xE9, 0x81, 0xA9];
    let expected = ['A', 'Z', 'a', 'z'];
    let result: Vec<char> = decode_to_ascii(&input, encoding);
    assert_eq!(result, expected);
}

fn check_unmappable_char(encoding: &Encoding) {
    let input = ['☃', 'Ł', '€'];
    let result: Vec<u8> = encode_ascii_to(&input, encoding);
    assert!(result.iter().all(|&b| b == 0x40));
}

fn check_encode_decode_round_trip_ascii(encoding: &Encoding) {
    for ch in 0x20u8..=0x7Eu8 {
        let c = ch as char;
        let encoded: Vec<u8> = encode_ascii_to(&[c], encoding);
        let decoded: Vec<char> = decode_to_ascii(&encoded, encoding);
        assert_eq!(decoded[0], c, "Round-trip failed for '{}'", c);
    }
}

fn check_encode_table_consistency(encoding: &Encoding) {
    let tbl = encoding.encode_table();
    for (i, &b) in tbl.iter().enumerate() {
        if i >= 0x20 && i <= 0x7E {
            let c = i as u8 as char;
            let encoded: Vec<u8> = encode_ascii_to(&[c], encoding);
            assert_eq!(encoded[0], b, "Encoding mismatch for '{}'", c);
        }
    }
}

fn check_decode_table_consistency(encoding: &Encoding) {
    let tbl = encoding.decode_table();
    for (i, &b) in tbl.iter().enumerate() {
        let decoded: Vec<char> = decode_to_ascii(&[i as u8], encoding);
        assert_eq!(decoded[0] as u8, b, "Decoding mismatch for byte 0x{:02X}", i);
    }
}

fn check_decode_invalid_bytes(encoding: &Encoding) {
    let invalid_bytes = [0x00, 0xFF, 0x9C, 0x9D];
    let decoded: Vec<char> = decode_to_ascii(&invalid_bytes, encoding);
    assert_eq!(decoded.len(), invalid_bytes.len());
}

#[test]
fn test_ascii_letters_encoding() {
    check_ascii_letters_encoding(&encoding_under_test());
}

#[test]
fn test_ascii_letters_decoding() {
    check_ascii_letters_decoding(&encoding_under_test());
}

#[test]
fn test_unmappable_char() {
    check_unmappable_char(&encoding_under_test());
}

#[test]
fn test_encode_decode_round_trip_ascii() {
    check_encode_decode_round_trip_ascii(&encoding_under_test());
}

#[test]
fn test_encode_table_consistency() {
    check_encode_table_consistency(&encoding_under_test());
}

#[test]
fn test_decode_table_consistency() {
    check_decode_table_consistency(&encoding_under_test());
}

#[test]
fn test_decode_invalid_bytes() {
    check_decode_invalid_bytes(&encoding_under_test());
}

#[test]
fn encoding_floor_for_control_character() {
    assert_eq!(encode_ascii_to(&['\x01'], &Encoding::CP037), vec![0x40]);
}

#[test]
fn unmappable_characters_become_space() {
    assert_eq!(encode_ascii_to(&['☃', 'Ł', '€'], &Encoding::CP037), vec![0x40, 0x40, 0x40]);
}

#[test]
fn every_character_encodes_at_or_above_space() {
    for c in ['\0', '\x1F', ' ', '~', '\u{7F}', '\u{FF}', '\u{100}', '€'] {
        assert!(encode_ascii_to(&[c], &Encoding::CP037)[0] >= 0x40);
    }
}

#[test]
fn tables_have_256_entries_and_invert() {
    let enc = Encoding::CP037.encode_table();
    let dec = Encoding::CP037.decode_table();
    assert_eq!(enc.len(), 256);
    assert_eq!(dec.len(), 256);
    for i in 0..256usize {
        assert_eq!(dec[enc[i] as usize] as usize, i);
    }
    assert_eq!(dec[0x00], 0x00);
    assert_eq!(enc[b'0' as usize], 0xF0);
}
