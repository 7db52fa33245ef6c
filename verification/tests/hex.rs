use archive_bridge::HexSlice;

#[test]
fn bytes_are_shown_as_two_upper_case_digits_each() {
    assert_eq!(HexSlice::new(&[0xAB, 0x01]).to_hex(), "AB01");
    assert_eq!(HexSlice::new(&[0x00]).to_hex(), "00");
    assert_eq!(HexSlice::new(&[0xFF]).to_hex(), "FF");
    assert_eq!(HexSlice::new(&[0x09, 0x0A, 0x90, 0xA0]).to_hex(), "090A90A0");
}

#[test]
fn no_bytes_are_shown_as_no_text() {
    assert_eq!(HexSlice::new(&[]).to_hex(), "");
}

#[test]
fn every_byte_is_shown_as_the_formatter_shows_it() {
    for byte in 0..=255u8 {
        assert_eq!(HexSlice::new(&[byte]).to_hex(), format!("{:02X}", byte));
    }
}

#[test]
fn text_is_twice_as_long_as_the_bytes() {
    let hash: Vec<u8> = (0..20u8).map(|i| i.wrapping_mul(13)).collect();
    let text = HexSlice::new(&hash).to_hex();
    assert_eq!(text.len(), 40);
    let expected: String = hash.iter().map(|b| format!("{:02X}", b)).collect();
    assert_eq!(text, expected);
}
