//! Tests for the binary codec: variable-length integers, fixed and
//! length-prefixed byte strings, and the decode cursor's exhaustion and
//! trailing-garbage checks.

use wasmlib::codec::CodecError;
use wasmlib::codec::WasmDecoder;
use wasmlib::codec::WasmEncoder;

fn vlu_bytes(v: u64) -> Vec<u8> {
    let mut enc = WasmEncoder::new();
    enc.vlu_encode(v);
    enc.buf()
}

fn vli_bytes(v: i64) -> Vec<u8> {
    let mut enc = WasmEncoder::new();
    enc.vli_encode(v);
    enc.buf()
}

fn vlu_round_trip(v: u64, bits: i32) {
    let bytes = vlu_bytes(v);
    let mut dec = WasmDecoder::new(&bytes);
    assert_eq!(dec.vlu_decode(bits), Ok(v));
    assert_eq!(dec.finish(), Ok(()));
}

fn vli_round_trip(v: i64, bits: i32) {
    let bytes = vli_bytes(v);
    let mut dec = WasmDecoder::new(&bytes);
    assert_eq!(dec.vli_decode(bits), Ok(v));
    assert_eq!(dec.finish(), Ok(()));
}

#[test]
fn vlu_round_trips() {
    for v in [0u64, 1, 2, 63, 64, 127, 128, 129, 255, 256, 16383, 16384, 0x1234_5678] {
        vlu_round_trip(v, 64);
    }
    vlu_round_trip(u64::MAX, 64);
    vlu_round_trip(u64::MAX - 1, 64);
    vlu_round_trip(u16::MAX as u64, 16);
    vlu_round_trip(u32::MAX as u64, 32);
    vlu_round_trip(0, 16);
}

#[test]
fn vli_round_trips() {
    for v in [0i64, 1, -1, 2, -2, 63, -63, 64, -64, -65, 127, -128, 8191, -8192, 8192] {
        vli_round_trip(v, 64);
    }
    vli_round_trip(i64::MAX, 64);
    vli_round_trip(i64::MIN, 64);
    vli_round_trip(i64::MIN + 1, 64);
    vli_round_trip(i16::MAX as i64, 16);
    vli_round_trip(i16::MIN as i64, 16);
    vli_round_trip(i32::MIN as i64, 32);
}

#[test]
fn vlu_minimality() {
    assert_eq!(vlu_bytes(0), vec![0x00]);
    assert_eq!(vlu_bytes(127), vec![0x7f]);
    assert_eq!(vlu_bytes(128), vec![0x80, 0x01]);
    assert_eq!(vlu_bytes(300), vec![0xac, 0x02]);
}

#[test]
fn vli_sign_handling() {
    // one byte: bit 6 (sign) set, bits 0..=5 all set
    assert_eq!(vli_bytes(-1), vec![0x7f]);
    let mut dec = WasmDecoder::new(&[0x7f]);
    assert_eq!(dec.vli_decode(64), Ok(-1));
    assert_eq!(dec.finish(), Ok(()));

    assert_eq!(vli_bytes(0), vec![0x00]);
    assert_eq!(vli_bytes(63), vec![0x3f]);
    assert_eq!(vli_bytes(-2), vec![0x7e]);
    assert_eq!(vli_bytes(-64), vec![0x40]);
    assert_eq!(vli_bytes(64), vec![0x80, 0x01]);
}

#[test]
fn vlu_exhaustion_on_empty() {
    let mut dec = WasmDecoder::new(&[]);
    assert_eq!(dec.vlu_decode(64), Err(CodecError::BufferExhausted));
}

#[test]
fn vli_exhaustion_on_empty() {
    let mut dec = WasmDecoder::new(&[]);
    assert_eq!(dec.vli_decode(64), Err(CodecError::BufferExhausted));
}

#[test]
fn vlu_exhaustion_mid_value() {
    // continuation bit set but no byte follows
    let mut dec = WasmDecoder::new(&[0x80]);
    assert_eq!(dec.vlu_decode(64), Err(CodecError::BufferExhausted));
}

#[test]
fn fixed_bytes_exhaustion() {
    let mut dec = WasmDecoder::new(&[1, 2]);
    assert_eq!(dec.fixed_bytes(4), Err(CodecError::BufferExhausted));
    // the failed read consumed nothing
    assert_eq!(dec.fixed_bytes(2), Ok(vec![1, 2]));
    assert_eq!(dec.finish(), Ok(()));
}

#[test]
fn trailing_garbage_detected() {
    let mut dec = WasmDecoder::new(&[0x07, 0x99]);
    assert_eq!(dec.byte(), Ok(0x07));
    assert_eq!(dec.finish(), Err(CodecError::TrailingBytes));
}

#[test]
fn vlu_integer_too_long() {
    // third continuation byte pushes the bit offset past a 16-bit ceiling
    let mut dec = WasmDecoder::new(&[0x80, 0x80, 0x80, 0x01]);
    assert_eq!(dec.vlu_decode(16), Err(CodecError::IntegerTooLong));
}

#[test]
fn vli_integer_too_long() {
    let mut dec = WasmDecoder::new(&[0xc0, 0x80, 0x80, 0x01]);
    assert_eq!(dec.vli_decode(16), Err(CodecError::IntegerTooLong));
}

#[test]
fn byte_and_peek() {
    let mut dec = WasmDecoder::new(&[0xaa, 0xbb]);
    assert_eq!(dec.peek(), Ok(0xaa));
    assert_eq!(dec.peek(), Ok(0xaa));
    assert_eq!(dec.byte(), Ok(0xaa));
    assert_eq!(dec.peek(), Ok(0xbb));
    assert_eq!(dec.byte(), Ok(0xbb));
    assert_eq!(dec.peek(), Err(CodecError::BufferExhausted));
    assert_eq!(dec.byte(), Err(CodecError::BufferExhausted));
}

#[test]
fn encoder_byte_and_buf() {
    let mut enc = WasmEncoder::new();
    assert_eq!(enc.buf(), Vec::<u8>::new());
    enc.byte(0x01);
    enc.byte(0xff);
    assert_eq!(enc.buf(), vec![0x01, 0xff]);
}

#[test]
fn encoder_fixed_bytes_length_mismatch() {
    let mut enc = WasmEncoder::new();
    assert_eq!(enc.fixed_bytes(&[1, 2, 3], 4), Err(CodecError::LengthMismatch));
    assert_eq!(enc.buf(), Vec::<u8>::new());
    assert_eq!(enc.fixed_bytes(&[1, 2, 3], 3), Ok(()));
    assert_eq!(enc.buf(), vec![1, 2, 3]);
}

#[test]
fn length_prefixed_bytes() {
    let mut enc = WasmEncoder::new();
    enc.bytes(&[1, 2, 3]);
    assert_eq!(enc.buf(), vec![0x03, 1, 2, 3]);

    let buf = enc.buf();
    let mut dec = WasmDecoder::new(&buf);
    assert_eq!(dec.bytes(), Ok(vec![1, 2, 3]));
    assert_eq!(dec.finish(), Ok(()));
}

#[test]
fn length_prefixed_bytes_empty() {
    let mut enc = WasmEncoder::new();
    enc.bytes(&[]);
    assert_eq!(enc.buf(), vec![0x00]);

    let buf = enc.buf();
    let mut dec = WasmDecoder::new(&buf);
    assert_eq!(dec.bytes(), Ok(Vec::<u8>::new()));
    assert_eq!(dec.finish(), Ok(()));
}

#[test]
fn length_prefixed_bytes_long() {
    let payload: Vec<u8> = (0..200u16).map(|i| (i % 251) as u8).collect();
    let mut enc = WasmEncoder::new();
    enc.bytes(&payload);
    // 200 needs a two-byte VLU length
    let buf = enc.buf();
    assert_eq!(buf[0], 0xc8);
    assert_eq!(buf[1], 0x01);
    assert_eq!(buf.len(), 202);

    let mut dec = WasmDecoder::new(&buf);
    assert_eq!(dec.bytes(), Ok(payload));
    assert_eq!(dec.finish(), Ok(()));
}

#[test]
fn length_prefixed_bytes_truncated() {
    // claims 5 bytes, holds 2
    let mut dec = WasmDecoder::new(&[0x05, 1, 2]);
    assert_eq!(dec.bytes(), Err(CodecError::BufferExhausted));
}

#[test]
fn several_values_in_one_buffer() {
    let mut enc = WasmEncoder::new();
    enc.vlu_encode(300);
    enc.vli_encode(-300);
    enc.byte(0x42);
    enc.bytes(b"hi");

    let buf = enc.buf();
    let mut dec = WasmDecoder::new(&buf);
    assert_eq!(dec.vlu_decode(64), Ok(300));
    assert_eq!(dec.vli_decode(64), Ok(-300));
    assert_eq!(dec.byte(), Ok(0x42));
    assert_eq!(dec.bytes(), Ok(b"hi".to_vec()));
    assert_eq!(dec.finish(), Ok(()));
}
