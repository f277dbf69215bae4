//! Tests for the hex text codec.

use wasmlib::codec::hex_decode;
use wasmlib::codec::hex_encode;
use wasmlib::codec::hexer;
use wasmlib::codec::u64_to_string;
use wasmlib::codec::CodecError;

#[test]
fn hex_decode_hello() {
    assert_eq!(hex_decode("48656c6c6f"), Ok(b"Hello".to_vec()));
}

#[test]
fn hex_encode_bytes() {
    assert_eq!(hex_encode(&[0x00, 0xff]), "00ff");
    assert_eq!(hex_encode(&[]), "");
    assert_eq!(hex_encode(&[0x12, 0x34, 0xab, 0xcd]), "1234abcd");
}

#[test]
fn hex_decode_odd_length() {
    assert_eq!(hex_decode("abc"), Err(CodecError::OddLength));
}

#[test]
fn hex_decode_invalid_digit() {
    assert_eq!(hex_decode("zz00"), Err(CodecError::InvalidDigit));
    assert_eq!(hex_decode("0g"), Err(CodecError::InvalidDigit));
}

#[test]
fn hex_decode_uppercase() {
    assert_eq!(hex_decode("ABCDEF"), Ok(vec![0xab, 0xcd, 0xef]));
    assert_eq!(hex_decode("AbCd"), Ok(vec![0xab, 0xcd]));
}

#[test]
fn hex_round_trip() {
    let bytes: Vec<u8> = (0u16..=255).map(|b| b as u8).collect();
    let text = hex_encode(&bytes);
    assert_eq!(hex_decode(&text), Ok(bytes));
}

#[test]
fn hex_reencode_normalizes_case() {
    let decoded = hex_decode("00FFa5").unwrap();
    assert_eq!(hex_encode(&decoded), "00ffa5");
}

#[test]
fn hexer_digits() {
    assert_eq!(hexer('0'), Ok(0));
    assert_eq!(hexer('9'), Ok(9));
    assert_eq!(hexer('a'), Ok(10));
    assert_eq!(hexer('f'), Ok(15));
    assert_eq!(hexer('A'), Ok(10));
    assert_eq!(hexer('F'), Ok(15));
    assert_eq!(hexer('g'), Err(CodecError::InvalidDigit));
    assert_eq!(hexer(' '), Err(CodecError::InvalidDigit));
}

#[test]
fn decimal_text() {
    assert_eq!(u64_to_string(0), "0");
    assert_eq!(u64_to_string(7), "7");
    assert_eq!(u64_to_string(10), "10");
    assert_eq!(u64_to_string(65535), "65535");
    assert_eq!(u64_to_string(u64::MAX), "18446744073709551615");
}
