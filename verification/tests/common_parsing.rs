use rfham_rigs::error::ranges::Ranges;
use rfham_rigs::error::RigError;
use rfham_rigs::protocol::cat::common::{
    assert_all_bytes_eq, assert_byte_eq, assert_byte_slice_eq, bool_from_ascii_1_0, bytes_to_vec,
    dbg_string_from_ascii, format_int_ascii, format_uint_ascii, i16_from_ascii, i8_from_ascii,
    i8_from_ascii_split, is_bit_set, sign_from_ascii_loose, sign_from_ascii_strict,
    string_from_ascii, u16_from_ascii, u32_from_ascii, u8_from_ascii, validate_integer_in_range,
    validate_response,
};
use rfham_rigs::protocol::cat::frame_command;

#[test]
fn validate_response_returns_value_bytes() {
    let d = validate_response(b"FA00014074000;", b"FA", 11).unwrap();
    assert_eq!(d, b"00014074000");
}

#[test]
fn validate_response_rejects_wrong_length() {
    let r = validate_response(b"FA123;", b"FA", 11);
    assert!(matches!(
        r,
        Err(RigError::InvalidResponseLength { expecting: Ranges::Just(14), given: 6 })
    ));
}

#[test]
fn validate_response_rejects_wrong_command_id() {
    let r = validate_response(b"FB1;", b"FA", 1);
    match r {
        Err(RigError::InvalidResponseCommandId { expecting }) => assert_eq!(expecting, b"FA".to_vec()),
        _ => panic!("expected a command id error"),
    }
}

#[test]
fn validate_response_rejects_missing_terminator() {
    let r = validate_response(b"FA1:", b"FA", 1);
    match r {
        Err(RigError::InvalidResponseTerminator { expecting }) => assert_eq!(expecting, vec![b';']),
        _ => panic!("expected a terminator error"),
    }
}

#[test]
fn validate_response_accepts_the_frame_of_a_command() {
    let frame = frame_command(b"K3", b"1");
    assert_eq!(frame, b"K31;".to_vec());
    assert_eq!(validate_response(&frame, b"K3", 1).unwrap(), b"1");
}

#[test]
fn bytes_to_vec_copies() {
    assert_eq!(bytes_to_vec(b"abc").unwrap(), b"abc".to_vec());
}

#[test]
fn string_from_ascii_reads_printable_text() {
    assert_eq!(string_from_ascii(b"K3 ok").unwrap(), "K3 ok".to_string());
}

#[test]
fn string_from_ascii_rejects_control_bytes() {
    match string_from_ascii(&[0x41, 0x07]) {
        Err(RigError::InvalidResponseData { data }) => assert_eq!(data, vec![0x41, 0x07]),
        _ => panic!("expected invalid data"),
    }
}

#[test]
fn dbg_string_from_ascii_shows_text_or_hex() {
    assert_eq!(dbg_string_from_ascii(b"AB"), "AB".to_string());
    assert_eq!(dbg_string_from_ascii(&[0x01, 0x4B, 0xFF]), "[01, 4B, FF]".to_string());
    assert_eq!(dbg_string_from_ascii(&[]), "".to_string());
}

#[test]
fn unsigned_fields_read_their_value() {
    assert_eq!(u32_from_ascii(b"0123456").unwrap(), 123456);
    assert_eq!(u16_from_ascii(b"9999").unwrap(), 9999);
    assert_eq!(i16_from_ascii(b"32767").unwrap(), 32767);
    assert_eq!(u8_from_ascii(b"255").unwrap(), 255);
    assert_eq!(u8_from_ascii(b"").unwrap(), 0);
}

#[test]
fn unsigned_fields_reject_non_digits_and_overflow() {
    assert!(matches!(u32_from_ascii(b"12a4"), Err(RigError::InvalidResponseData { .. })));
    assert!(matches!(u16_from_ascii(b"65536"), Err(RigError::InvalidResponseData { .. })));
    assert!(matches!(i16_from_ascii(b"32768"), Err(RigError::InvalidResponseData { .. })));
    assert!(matches!(u8_from_ascii(b"-1"), Err(RigError::InvalidResponseData { .. })));
}

#[test]
fn sign_bytes() {
    assert_eq!(sign_from_ascii_strict(b'-').unwrap(), -1);
    assert_eq!(sign_from_ascii_strict(b'+').unwrap(), 1);
    assert!(matches!(sign_from_ascii_strict(b' '), Err(RigError::ParseSign { value: b' ' })));
    assert_eq!(sign_from_ascii_loose(b' ').unwrap(), 1);
    assert!(matches!(sign_from_ascii_loose(b'x'), Err(RigError::ParseSign { value: b'x' })));
}

#[test]
fn signed_byte_fields() {
    assert_eq!(i8_from_ascii(b"-12").unwrap(), -12);
    assert_eq!(i8_from_ascii(b" 99").unwrap(), 99);
    assert!(matches!(
        i8_from_ascii(b"1"),
        Err(RigError::InvalidResponseLength { expecting: Ranges::RangeInclusive(2, 3), given: 1 })
    ));
    assert!(matches!(i8_from_ascii(b"*12"), Err(RigError::ParseSign { value: b'*' })));
    assert!(matches!(i8_from_ascii_split(b"x+1a", b"+1a"), Err(RigError::InvalidResponseData { .. })));
    assert_eq!(i8_from_ascii_split(b"raw", b"-05").unwrap(), -5);
}

#[test]
fn boolean_bytes() {
    assert!(bool_from_ascii_1_0(b'1').unwrap());
    assert!(!bool_from_ascii_1_0(b'0').unwrap());
    assert!(matches!(bool_from_ascii_1_0(b'2'), Err(RigError::ParseBoolean { value: b'2' })));
}

#[test]
fn byte_assertions() {
    assert!(assert_byte_eq(b' ', b' ').is_ok());
    match assert_byte_eq(b'x', b' ') {
        Err(RigError::InvalidResponseData { data }) => assert_eq!(data, vec![b'x']),
        _ => panic!("expected invalid data"),
    }
    assert!(assert_all_bytes_eq(b"000", b'0').is_ok());
    assert!(assert_all_bytes_eq(b"", b'0').is_ok());
    assert!(matches!(assert_all_bytes_eq(b"010", b'0'), Err(RigError::InvalidResponseData { .. })));
    assert!(assert_byte_slice_eq(b"01", b"01").is_ok());
    assert!(matches!(assert_byte_slice_eq(b"01", b"012"), Err(RigError::InvalidResponseData { .. })));
}

#[test]
fn numeric_formats() {
    assert_eq!(format_uint_ascii(42, 4), b"0042".to_vec());
    assert_eq!(format_uint_ascii(123456, 4), b"123456".to_vec());
    assert_eq!(format_uint_ascii(0, 0), b"0".to_vec());
    assert_eq!(format_int_ascii(-42, 4), b"-0042".to_vec());
    assert_eq!(format_int_ascii(7, 2), b"+07".to_vec());
    assert_eq!(format_int_ascii(i16::MAX, 4), b"+32767".to_vec());
}

#[test]
fn formatted_numbers_parse_back() {
    for n in [0u32, 7, 99, 1000, 65535, 999_999] {
        let digits = format_uint_ascii(n as u64, 6);
        assert_eq!(u32_from_ascii(&digits).unwrap(), n);
    }
}

#[test]
fn integer_range_validation() {
    assert!(validate_integer_in_range("level", "u8", 5, 0, 9).is_ok());
    match validate_integer_in_range("level", "u8", -10, 0, 9) {
        Err(RigError::InvalidArgumentValue { argument_name, value_type, value }) => {
            assert_eq!(argument_name, "level");
            assert_eq!(value_type, "u8");
            assert_eq!(value, "-10");
        }
        _ => panic!("expected an argument error"),
    }
}

#[test]
fn bit_tests() {
    assert!(is_bit_set(0b1000_0001, 7));
    assert!(is_bit_set(0b1000_0001, 0));
    assert!(!is_bit_set(0b1000_0001, 3));
}
