use cuckoo_miner::header::{build_header, decode_hex_fragment, get_next_header_data};

#[test]
fn decode_single_zero_byte() {
    assert_eq!(decode_hex_fragment("00"), Some(vec![0u8]));
}

#[test]
fn decode_single_max_byte() {
    assert_eq!(decode_hex_fragment("ff"), Some(vec![255u8]));
}

#[test]
fn decode_mixed_case_digits() {
    assert_eq!(decode_hex_fragment("0A1b"), Some(vec![10u8, 27u8]));
}

#[test]
fn decode_empty_fragment() {
    assert_eq!(decode_hex_fragment(""), Some(vec![]));
}

#[test]
fn decode_rejects_non_hex_character() {
    assert_eq!(decode_hex_fragment("0g"), None);
}

#[test]
fn decode_rejects_odd_length() {
    assert_eq!(decode_hex_fragment("abc"), None);
}

#[test]
fn header_splices_nonce_between_fragments() {
    let h = build_header("00", "ff", 1).unwrap();
    assert_eq!(h, vec![0u8, 1, 0, 0, 0, 0, 0, 0, 0, 255]);
}

#[test]
fn header_with_empty_fragments_is_nonce_only() {
    let h = build_header("", "", 0x0102030405060708).unwrap();
    assert_eq!(h, vec![8u8, 7, 6, 5, 4, 3, 2, 1]);
}

#[test]
fn header_rejects_bad_fragment() {
    assert_eq!(build_header("zz", "ff", 1), None);
    assert_eq!(build_header("00", "f", 1), None);
}

#[test]
fn next_header_data_matches_returned_nonce() {
    let (nonce, h) = get_next_header_data("00a1", "b2").unwrap();
    assert_eq!(h.len(), 2 + 8 + 1);
    assert_eq!(&h[0..2], &[0x00u8, 0xa1]);
    assert_eq!(&h[2..10], &nonce.to_le_bytes());
    assert_eq!(h[10], 0xb2);
}

#[test]
fn next_header_data_rejects_bad_fragment() {
    assert!(get_next_header_data("0", "ff").is_none());
    assert!(get_next_header_data("00", "fg").is_none());
}
