use ftdx_1chm::parsers::{buf4_to_i16, buf4_to_u16, buf5_to_i16, buf9_to_u32};

#[test]
fn buf5_parses_positive_and_negative() {
    assert_eq!(buf5_to_i16(b"+00015").unwrap(), 15);
    assert_eq!(buf5_to_i16(b"-00123").unwrap(), -123);
}

#[test]
fn buf5_bounds_and_invalid() {
    assert_eq!(buf5_to_i16(b"+32767").unwrap(), 32767);
    assert_eq!(buf5_to_i16(b"-32768").unwrap(), -32768);
    assert!(buf5_to_i16(b"+00a15").is_err());
}

#[test]
fn buf5_rejects_wrong_length() {
    // missing sign or digits
    assert!(buf5_to_i16(b"00015").is_err());
    assert!(buf5_to_i16(b"+0015").is_err());
}

#[test]
fn buf9_parses_and_invalid() {
    assert_eq!(buf9_to_u32(b"000000000").unwrap(), 0);
    assert_eq!(buf9_to_u32(b"000000123").unwrap(), 123);
    assert_eq!(buf9_to_u32(b"999999999").unwrap(), 999_999_999u32);
    assert!(buf9_to_u32(b"00000a123").is_err());
}

#[test]
fn buf9_rejects_wrong_length() {
    assert!(buf9_to_u32(b"0000123").is_err()); // 7 bytes
    assert!(buf9_to_u32(b"00001234567").is_err()); // 11 bytes
}

#[test]
fn buf4_parses_and_length() {
    assert_eq!(buf4_to_u16(b"1234").unwrap(), 1234);
    assert!(buf4_to_u16(b"123").is_err());
    assert!(buf4_to_u16(b"12345").is_err());
}

#[test]
fn buf4_to_i16_parses_first_four_digits() {
    // the function expects 5 bytes with the first byte being a sign
    assert_eq!(buf4_to_i16(b"+1234").unwrap(), 1234);
    assert_eq!(buf4_to_i16(b"+9999").unwrap(), 9999);
}

#[test]
fn buf4_to_i16_parses_sign() {
    // the function expects 5 bytes with the first byte being a sign
    assert_eq!(buf4_to_i16(b"-1234").unwrap(), -1234);
    assert_eq!(buf4_to_i16(b"-9999").unwrap(), -9999);
}

#[test]
fn buf4_to_i16_invalid_and_length() {
    // invalid digit present
    assert!(buf4_to_i16(b"12a45").is_err());
    // wrong lengths
    assert!(buf4_to_i16(b"1234").is_err()); // 4 bytes -> rejected
    assert!(buf4_to_i16(b"123456").is_err()); // 6 bytes -> rejected
}

#[test]
fn buf4_to_i16_sign_byte_is_permissive() {
    // only '-' makes the value negative; any other sign byte reads as positive
    assert_eq!(buf4_to_i16(b"?1234").unwrap(), 1234);
    assert_eq!(buf4_to_i16(b"00015").unwrap(), 15);
}
