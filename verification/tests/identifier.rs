use recipedia::identifier::{identifier_text, is_canonical_identifier, parse_identifier};

#[test]
fn identifier_is_written_in_lower_case_hexadecimal() {
    let bytes: [u8; 12] = [0x5f, 0x00, 0xff, 0x10, 0xab, 0xcd, 0xef, 0x01, 0x23, 0x45, 0x67, 0x89];
    assert_eq!(identifier_text(&bytes), "5f00ff10abcdef0123456789");
    assert_eq!(identifier_text(&[0u8; 12]), "000000000000000000000000");
}

#[test]
fn identifier_is_read_in_either_case() {
    let bytes: [u8; 12] = [0x5f, 0x00, 0xff, 0x10, 0xab, 0xcd, 0xef, 0x01, 0x23, 0x45, 0x67, 0x89];
    assert_eq!(parse_identifier("5f00ff10abcdef0123456789"), Some(bytes));
    assert_eq!(parse_identifier("5F00FF10ABCDEF0123456789"), Some(bytes));
    assert_eq!(parse_identifier("5f00Ff10aBcDeF0123456789"), Some(bytes));
}

#[test]
fn identifier_round_trips_through_its_text() {
    let bytes: [u8; 12] = [1, 2, 3, 4, 5, 6, 7, 8, 9, 10, 11, 250];
    let text = identifier_text(&bytes);
    assert_eq!(text, "0102030405060708090a0bfa");
    assert_eq!(parse_identifier(&text), Some(bytes));
    assert_eq!(identifier_text(&parse_identifier("0102030405060708090a0bfa").unwrap()), text);
}

#[test]
fn what_is_no_identifier_is_refused() {
    assert_eq!(parse_identifier(""), None);
    assert_eq!(parse_identifier("5f00ff10abcdef012345678"), None);
    assert_eq!(parse_identifier("5f00ff10abcdef01234567890"), None);
    assert_eq!(parse_identifier("5f00ff10abcdef012345678g"), None);
    assert_eq!(parse_identifier("5f00ff10abcdef01234567 9"), None);
    assert_eq!(parse_identifier("not an identifier at all"), None);
    assert_eq!(parse_identifier("ééééééééééééééééééééééé"), None);
    assert_eq!(parse_identifier("éééééééééééé"), None);
}

#[test]
fn canonical_identifiers_are_lower_case() {
    assert!(is_canonical_identifier("5f00ff10abcdef0123456789"));
    assert!(is_canonical_identifier("000000000000000000000000"));
    assert!(!is_canonical_identifier("5F00FF10ABCDEF0123456789"));
    assert!(!is_canonical_identifier("5f00ff10abcdef012345678"));
    assert!(!is_canonical_identifier("5f00ff10abcdef012345678g"));
    assert!(!is_canonical_identifier(""));
}
