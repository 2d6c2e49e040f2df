use md2_digest::hex::to_hex;

#[test]
fn hex_of_no_bytes_is_empty() {
    assert_eq!(to_hex(&[]), "");
}

#[test]
fn hex_has_two_digits_per_byte() {
    assert_eq!(to_hex(&[0x00]), "00");
    assert_eq!(to_hex(&[0x05]), "05");
    assert_eq!(to_hex(&[0x0a]), "0a");
    assert_eq!(to_hex(&[0x10]), "10");
    assert_eq!(to_hex(&[0xa0]), "a0");
    assert_eq!(to_hex(&[0xff]), "ff");
}

#[test]
fn hex_puts_the_high_half_first() {
    assert_eq!(to_hex(&[0x1f]), "1f");
    assert_eq!(to_hex(&[0xf1]), "f1");
    assert_eq!(to_hex(&[0x83, 0x50, 0xe5]), "8350e5");
}

#[test]
fn hex_uses_every_digit_in_lower_case() {
    assert_eq!(
        to_hex(&[0x01, 0x23, 0x45, 0x67, 0x89, 0xab, 0xcd, 0xef]),
        "0123456789abcdef"
    );
}

#[test]
fn hex_of_every_byte_value() {
    let mut byte: u8 = 0;
    loop {
        assert_eq!(to_hex(&[byte]), format!("{:02x}", byte));
        if byte == 255 {
            break;
        }
        byte += 1;
    }
}
