//! Binary codec: a decode cursor over an immutable byte sequence and an
//! append-only encode buffer, with variable-length integer encodings
//! (VLU: 7 payload bits per byte; VLI: 6 payload bits plus a sign flag in
//! the first byte) and hex text conversion.

use vstd::prelude::*;
use vstd::slice::slice_subrange;
use vstd::slice::slice_to_vec;
use vstd::string::StringExecFns;

verus! {

/// The ways a codec operation can fail. Malformed input is fatal for the
/// enclosing decode; no partial recovery is attempted.
#[derive(Clone, Copy, Debug, PartialEq, Eq, Structural)]
pub enum CodecError {
    /// A decode read past the end of the buffer.
    BufferExhausted,
    /// A decode finished with unconsumed input.
    TrailingBytes,
    /// A variable-length integer continued past the declared bit-width ceiling.
    IntegerTooLong,
    /// A fixed-byte encode was given input of the wrong length.
    LengthMismatch,
    /// A hex string had an odd number of characters.
    OddLength,
    /// A hex string held a character that is no hex digit.
    InvalidDigit,
}

/// Decode cursor: an immutable byte sequence plus a read offset.
/// The view is the remaining (not yet consumed) bytes.
pub struct WasmDecoder {
    buf: Vec<u8>,
    pos: usize,
}

impl View for WasmDecoder {
    type V = Seq<u8>;

    closed spec fn view(&self) -> Seq<u8> {
        self.buf@.skip(self.pos as int)
    }
}

impl WasmDecoder {
    /// The read offset never exceeds the sequence length.
    pub closed spec fn wf(&self) -> bool {
        self.pos <= self.buf.len()
    }

    /// Constructs a decoder over a copy of the given bytes.
    pub fn new(buf: &[u8]) -> (r: WasmDecoder)
        ensures
            r.wf(),
            r@ == buf@,
    {
        let r = WasmDecoder { buf: slice_to_vec(buf), pos: 0 };
        proof {
            assert(r@ =~= buf@);
        }
        r
    }

    /// Decodes the next byte.
    pub fn byte(&mut self) -> (r: Result<u8, CodecError>)
        requires
            old(self).wf(),
        ensures
            final(self).wf(),
            old(self)@.len() > 0 ==> r == Ok::<u8, CodecError>(old(self)@[0]) && final(self)@
                == old(self)@.drop_first(),
            old(self)@.len() == 0 ==> r == Err::<u8, CodecError>(CodecError::BufferExhausted)
                && final(self)@ == old(self)@,
    {
        if self.pos < self.buf.len() {
            let b = self.buf[self.pos];
            self.pos = self.pos + 1;
            proof {
                assert(self@ =~= old(self)@.drop_first());
            }
            Ok(b)
        } else {
            Err(CodecError::BufferExhausted)
        }
    }

    /// Peeks at the next byte without consuming it.
    pub fn peek(&self) -> (r: Result<u8, CodecError>)
        requires
            self.wf(),
        ensures
            self@.len() > 0 ==> r == Ok::<u8, CodecError>(self@[0]),
            self@.len() == 0 ==> r == Err::<u8, CodecError>(CodecError::BufferExhausted),
    {
        if self.pos < self.buf.len() {
            Ok(self.buf[self.pos])
        } else {
            Err(CodecError::BufferExhausted)
        }
    }

    /// Decodes the next fixed-length substring of bytes.
    pub fn fixed_bytes(&mut self, size: usize) -> (r: Result<Vec<u8>, CodecError>)
        requires
            old(self).wf(),
        ensures
            final(self).wf(),
            old(self)@.len() >= size ==> r is Ok && r->Ok_0@ == old(self)@.take(size as int)
                && final(self)@ == old(self)@.skip(size as int),
            old(self)@.len() < size ==> r == Err::<Vec<u8>, CodecError>(
                CodecError::BufferExhausted,
            ) && final(self)@ == old(self)@,
    {
        if self.buf.len() - self.pos < size {
            return Err(CodecError::BufferExhausted);
        }
        let value = slice_to_vec(slice_subrange(self.buf.as_slice(), self.pos, self.pos + size));
        self.pos = self.pos + size;
        proof {
            assert(value@ =~= old(self)@.take(size as int));
            assert(self@ =~= old(self)@.skip(size as int));
        }
        Ok(value)
    }

    /// The number of bytes not yet consumed.
    pub fn remaining(&self) -> (r: usize)
        requires
            self.wf(),
        ensures
            r == self@.len(),
    {
        self.buf.len() - self.pos
    }

    /// Checks that the cursor consumed its buffer exactly; unconsumed
    /// bytes are the fatal trailing-garbage error.
    pub fn finish(self) -> (r: Result<(), CodecError>)
        requires
            self.wf(),
        ensures
            self@.len() == 0 ==> r == Ok::<(), CodecError>(()),
            self@.len() > 0 ==> r == Err::<(), CodecError>(CodecError::TrailingBytes),
    {
        if self.pos < self.buf.len() {
            Err(CodecError::TrailingBytes)
        } else {
            Ok(())
        }
    }
}

/// The byte sequence that the VLU (variable-length unsigned) encoding of
/// `v` produces: little-endian groups of 7 payload bits, the continuation
/// flag in bit 7 of every byte but the last.
pub open spec fn vlu_enc(v: u64) -> Seq<u8>
    decreases v,
    via vlu_enc_decreases
{
    if v >> 7u64 == 0 {
        seq![v as u8]
    } else {
        seq![(v as u8) | 0x80] + vlu_enc(v >> 7u64)
    }
}

#[via_fn]
proof fn vlu_enc_decreases(v: u64) {
    assert(v >> 7u64 != 0 ==> v >> 7u64 < v) by (bit_vector);
}

/// VLU decoding after a continuation byte: `acc` holds the payload bits
/// accumulated so far, `shift` the bit offset of the next group. Fails if
/// `shift` reaches `bits` while the continuation flag is still set.
pub open spec fn vlu_dec_cont(s: Seq<u8>, acc: u64, shift: u64, bits: int) -> Result<
    (u64, Seq<u8>),
    CodecError,
>
    decreases s.len(),
{
    if shift as int >= bits {
        Err(CodecError::IntegerTooLong)
    } else if s.len() == 0 {
        Err(CodecError::BufferExhausted)
    } else {
        let b = s[0];
        let acc2 = acc | (((b & 0x7f) as u64) << shift);
        if b & 0x80 == 0 {
            Ok((acc2, s.drop_first()))
        } else {
            vlu_dec_cont(s.drop_first(), acc2, (shift + 7) as u64, bits)
        }
    }
}

/// The result of VLU-decoding the front of `s` with bit-width ceiling
/// `bits`: the decoded value and the bytes left over, or the error.
pub open spec fn vlu_dec(s: Seq<u8>, bits: int) -> Result<(u64, Seq<u8>), CodecError> {
    if s.len() == 0 {
        Err(CodecError::BufferExhausted)
    } else {
        let b = s[0];
        let acc = (b & 0x7f) as u64;
        if b & 0x80 == 0 {
            Ok((acc, s.drop_first()))
        } else {
            vlu_dec_cont(s.drop_first(), acc, 7, bits)
        }
    }
}

proof fn lemma_vlu_enc_dec_cont(v: u64, acc: u64, shift: u64, rest: Seq<u8>, bits: int)
    requires
        7 <= shift,
        (shift as int) < bits <= 64,
        v >= 1,
        v >> ((bits - shift) as u64) == 0,
    ensures
        vlu_dec_cont(vlu_enc(v) + rest, acc, shift, bits) == Ok::<(u64, Seq<u8>), CodecError>(
            ((acc | (v << shift)), rest),
        ),
    decreases v,
{
    let d = (bits - shift) as u64;
    if v >> 7u64 == 0 {
        assert(vlu_enc(v) =~= seq![v as u8]);
        assert((vlu_enc(v) + rest).drop_first() =~= rest);
        assert((v as u8) & 0x80 == 0 && (((v as u8) & 0x7f) as u64) == v) by (bit_vector)
            requires
                v >> 7u64 == 0,
        ;
    } else {
        let b: u8 = (v as u8) | 0x80;
        assert(vlu_enc(v) =~= seq![b] + vlu_enc(v >> 7u64));
        assert((vlu_enc(v) + rest).drop_first() =~= vlu_enc(v >> 7u64) + rest);
        assert(((v as u8) | 0x80) & 0x80 != 0) by (bit_vector);
        let acc2 = acc | (((b & 0x7f) as u64) << shift);
        assert(d > 7) by (bit_vector)
            requires
                v >> 7u64 != 0 && v >> d == 0 && d <= 63,
        ;
        let dm7 = (d - 7) as u64;
        let sh7 = (shift + 7) as u64;
        assert(v >> 7u64 < v && (v >> 7u64) >= 1 && (v >> 7u64) >> dm7 == 0) by (bit_vector)
            requires
                v >> 7u64 != 0 && v >> d == 0 && 7 < d <= 63 && dm7 + 7 == d,
        ;
        assert((bits - sh7) as u64 == dm7);
        lemma_vlu_enc_dec_cont(v >> 7u64, acc2, sh7, rest, bits);
        assert((acc | ((((((v as u8) | 0x80) & 0x7f) as u64) << shift))) | ((v >> 7u64) << sh7)
            == acc | (v << shift)) by (bit_vector)
            requires
                7 <= shift <= 56 && sh7 == shift + 7,
        ;
    }
}

/// Minimality of the VLU encoding: values below 128 take exactly one
/// byte, and the last (most significant) group of a non-zero value is
/// never zero, so no encoding carries extraneous continuation bytes.
pub proof fn lemma_vlu_enc_minimal(v: u64)
    ensures
        vlu_enc(v).len() >= 1,
        vlu_enc(v)[vlu_enc(v).len() - 1] & 0x80 == 0,
        v != 0 ==> vlu_enc(v)[vlu_enc(v).len() - 1] != 0,
        v < 128 ==> vlu_enc(v) == seq![v as u8],
    decreases v,
{
    assert((v >> 7u64 == 0 ==> ((v as u8) & 0x80 == 0 && v < 128 && (v != 0 ==> v as u8 != 0)))
        && (v >> 7u64 != 0 ==> (v >> 7u64 < v && v >= 128))) by (bit_vector);
    if v >> 7u64 != 0 {
        lemma_vlu_enc_minimal(v >> 7u64);
    }
}

/// The byte sequence that the VLI (variable-length signed) encoding of a
/// value produces after its first byte: little-endian groups of 7 payload
/// bits of the two's-complement value, stopping once the remaining
/// arithmetic shift is exhausted (0 for non-negative, -1 for negative).
pub open spec fn vli_enc_rest(v: i64) -> Seq<u8>
    decreases (if v >= 0 {
        v as int
    } else {
        -1 - v as int
    }),
    via vli_enc_rest_decreases
{
    let b = (v as u8) & 0x7f;
    let v2 = v >> 7u64;
    if v2 == 0 || v2 == -1 {
        seq![b]
    } else {
        seq![b | 0x80] + vli_enc_rest(v2)
    }
}

#[via_fn]
proof fn vli_enc_rest_decreases(v: i64) {
    assert(v >= 0 && !(v >> 7u64 == 0 || v >> 7u64 == -1) ==> 0 <= v >> 7u64 < v) by (bit_vector);
    assert(v < 0 && !(v >> 7u64 == 0 || v >> 7u64 == -1) ==> v < v >> 7u64 < 0) by (bit_vector);
}

/// The byte sequence that the VLI encoding of `v` produces: the first
/// byte carries 6 payload bits and the sign flag in bit 6, later bytes 7
/// payload bits each, the continuation flag in bit 7 of every byte but
/// the last.
pub open spec fn vli_enc(v: i64) -> Seq<u8> {
    let b = ((v as u8) & 0x3f) | (if v < 0 {
        0x40u8
    } else {
        0u8
    });
    let v2 = v >> 6u64;
    if v2 == 0 || v2 == -1 {
        seq![b]
    } else {
        seq![b | 0x80] + vli_enc_rest(v2)
    }
}

/// Sign extension of a decoded VLI: sets all bits at and above the final
/// bit offset; bits beyond the width of the result do not exist.
pub open spec fn vli_sign_extend(acc: i64, shift: u64) -> i64 {
    if shift < 64 {
        acc | ((-1i64) << shift)
    } else {
        acc
    }
}

/// VLI decoding after a continuation byte: `acc` holds the payload bits
/// accumulated so far (zero-extended), `shift` the bit offset of the next
/// group, `sign` the flag from the first byte.
pub open spec fn vli_dec_cont(s: Seq<u8>, acc: i64, shift: u64, sign: bool, bits: int) -> Result<
    (i64, Seq<u8>),
    CodecError,
>
    decreases s.len(),
{
    if shift as int >= bits {
        Err(CodecError::IntegerTooLong)
    } else if s.len() == 0 {
        Err(CodecError::BufferExhausted)
    } else {
        let b = s[0];
        let acc2 = acc | (((b & 0x7f) as i64) << shift);
        if b & 0x80 == 0 {
            Ok(
                (
                    (if sign {
                        vli_sign_extend(acc2, (shift + 7) as u64)
                    } else {
                        acc2
                    }),
                    s.drop_first(),
                ),
            )
        } else {
            vli_dec_cont(s.drop_first(), acc2, (shift + 7) as u64, sign, bits)
        }
    }
}

/// The result of VLI-decoding the front of `s` with bit-width ceiling
/// `bits`: the decoded value and the bytes left over, or the error.
pub open spec fn vli_dec(s: Seq<u8>, bits: int) -> Result<(i64, Seq<u8>), CodecError> {
    if s.len() == 0 {
        Err(CodecError::BufferExhausted)
    } else {
        let b = s[0];
        let sign = b & 0x40 != 0;
        let acc = (b & 0x3f) as i64;
        if b & 0x80 == 0 {
            Ok(
                (
                    (if sign {
                        vli_sign_extend(acc, 6)
                    } else {
                        acc
                    }),
                    s.drop_first(),
                ),
            )
        } else {
            vli_dec_cont(s.drop_first(), acc, 6, sign, bits)
        }
    }
}

/// Minimality of the VLI encoding: values whose arithmetic shift by 6
/// is exhausted take exactly one byte, and the last (most significant)
/// group of a longer encoding is never a pure sign-extension group, so
/// no encoding carries extraneous continuation bytes.
pub proof fn lemma_vli_enc_minimal(v: i64)
    ensures
        vli_enc(v).len() >= 1,
        vli_enc(v)[vli_enc(v).len() - 1] & 0x80 == 0,
        v >> 6u64 == 0 || v >> 6u64 == -1 ==> vli_enc(v).len() == 1,
        vli_enc(v).len() > 1 && v >= 0 ==> vli_enc(v)[vli_enc(v).len() - 1] != 0,
        vli_enc(v).len() > 1 && v < 0 ==> vli_enc(v)[vli_enc(v).len() - 1] != 0x7f,
{
    let v2 = v >> 6u64;
    assert((((v as u8) & 0x3f) | 0x40) & 0x80 == 0 && ((v as u8) & 0x3f) & 0x80 == 0 && (((v
        as u8) & 0x3f) | 0u8) & 0x80 == 0) by (bit_vector);
    if !(v2 == 0 || v2 == -1) {
        assert((v >= 0 ==> v2 >= 1) && (v < 0 ==> v2 <= -2)) by (bit_vector)
            requires
                v2 == v >> 6u64 && !(v2 == 0 || v2 == -1),
        ;
        lemma_vli_enc_rest_minimal(v2);
    }
}

proof fn lemma_vli_enc_rest_minimal(v: i64)
    requires
        v != 0 && v != -1,
    ensures
        vli_enc_rest(v).len() >= 1,
        vli_enc_rest(v)[vli_enc_rest(v).len() - 1] & 0x80 == 0,
        v > 0 ==> vli_enc_rest(v)[vli_enc_rest(v).len() - 1] != 0,
        v < 0 ==> vli_enc_rest(v)[vli_enc_rest(v).len() - 1] != 0x7f,
    decreases (if v >= 0 {
        v as int
    } else {
        -1 - v as int
    }),
{
    let v2 = v >> 7u64;
    assert(((v as u8) & 0x7f) & 0x80 == 0 && (v2 == 0 || v2 == -1 ==> ((v > 0 ==> (v as u8) & 0x7f
        != 0) && (v < 0 ==> (v as u8) & 0x7f != 0x7f))) && (!(v2 == 0 || v2 == -1) ==> ((v >= 0
        ==> 0 < v2 < v) && (v < 0 ==> v < v2 <= -2)))) by (bit_vector)
        requires
            v2 == v >> 7u64 && v != 0 && v != -1,
    ;
    if !(v2 == 0 || v2 == -1) {
        lemma_vli_enc_rest_minimal(v2);
    }
}

proof fn lemma_vli_enc_dec_cont(v: i64, acc: i64, shift: u64, sign: bool, rest: Seq<u8>, bits: int)
    requires
        6 <= shift,
        (shift as int) < bits <= 64,
        sign == (v < 0),
        v != 0 && v != -1,
        v >> ((bits - shift) as u64) == (if sign {
            -1i64
        } else {
            0i64
        }),
    ensures
        vli_dec_cont(vli_enc_rest(v) + rest, acc, shift, sign, bits) == Ok::<
            (i64, Seq<u8>),
            CodecError,
        >(((acc | (v << shift)), rest)),
    decreases (if v >= 0 {
        v as int
    } else {
        -1 - v as int
    }),
{
    let d = (bits - shift) as u64;
    let fin: i64 = if sign {
        -1i64
    } else {
        0i64
    };
    let b: u8 = (v as u8) & 0x7f;
    let v2 = v >> 7u64;
    let sh7 = (shift + 7) as u64;
    if v2 == 0 || v2 == -1 {
        assert(vli_enc_rest(v) =~= seq![b]);
        assert((vli_enc_rest(v) + rest).drop_first() =~= rest);
        assert(((v as u8) & 0x7f) & 0x80 == 0) by (bit_vector);
        let acc2 = acc | (((b & 0x7f) as i64) << shift);
        assert((if sign {
            vli_sign_extend(acc2, sh7)
        } else {
            acc2
        }) == acc | (v << shift)) by {
            if sh7 < 64 {
                assert((if sign {
                    (acc | (((((v as u8) & 0x7f) & 0x7f) as i64) << shift)) | ((-1i64) << sh7)
                } else {
                    acc | (((((v as u8) & 0x7f) & 0x7f) as i64) << shift)
                }) == acc | (v << shift)) by (bit_vector)
                    requires
                        6 <= shift <= 63 && sh7 == shift + 7 && sh7 < 64 && sign == (v < 0) && (v
                            >> 7u64 == 0 || v >> 7u64 == -1) && v != 0 && v != -1,
                ;
            } else {
                assert((acc | (((((v as u8) & 0x7f) & 0x7f) as i64) << shift)) == acc | (v
                    << shift)) by (bit_vector)
                    requires
                        6 <= shift <= 63 && sh7 == shift + 7 && sh7 >= 64 && sign == (v < 0) && (v
                            >> 7u64 == 0 || v >> 7u64 == -1) && v != 0 && v != -1,
                ;
            }
        }
    } else {
        assert(vli_enc_rest(v) =~= seq![b | 0x80] + vli_enc_rest(v2));
        assert((vli_enc_rest(v) + rest).drop_first() =~= vli_enc_rest(v2) + rest);
        assert((((v as u8) & 0x7f) | 0x80) & 0x80 != 0) by (bit_vector);
        let acc2 = acc | ((((b | 0x80) & 0x7f) as i64) << shift);
        assert(d > 7) by (bit_vector)
            requires
                !(v >> 7u64 == 0 || v >> 7u64 == -1) && v >> d == (if sign {
                    -1i64
                } else {
                    0i64
                }) && 0 < d <= 63,
        ;
        let dm7 = (d - 7) as u64;
        assert(sign == (v2 < 0) && v2 != 0 && v2 != -1 && v2 >> dm7 == (if sign {
            -1i64
        } else {
            0i64
        })) by (bit_vector)
            requires
                v2 == v >> 7u64 && !(v2 == 0 || v2 == -1) && sign == (v < 0) && v >> d == (if sign {
                    -1i64
                } else {
                    0i64
                }) && 7 < d <= 63 && dm7 + 7 == d,
        ;
        assert((bits - sh7) as u64 == dm7);
        assert(v >= 0 && !(v >> 7u64 == 0 || v >> 7u64 == -1) ==> 0 <= v >> 7u64 < v) by (bit_vector);
        assert(v < 0 && !(v >> 7u64 == 0 || v >> 7u64 == -1) ==> v < v >> 7u64 < 0) by (bit_vector);
        lemma_vli_enc_dec_cont(v2, acc2, sh7, sign, rest, bits);
        assert((acc | ((((((v as u8) & 0x7f) | 0x80) & 0x7f) as i64) << shift)) | ((v >> 7u64)
            << sh7) == acc | (v << shift)) by (bit_vector)
            requires
                6 <= shift <= 56 && sh7 == shift + 7,
        ;
    }
}

/// Round trip for signed variable-length integers: whatever `encode`
/// emitted for a value representable in `bits` bits (sign included),
/// `decode` with the same ceiling reads back, leaving exactly the
/// trailing bytes.
pub proof fn lemma_vli_round_trip(v: i64, rest: Seq<u8>, bits: int)
    requires
        0 < bits <= 64,
        v >> ((bits - 1) as u64) == 0 || v >> ((bits - 1) as u64) == -1,
    ensures
        vli_dec(vli_enc(v) + rest, bits) == Ok::<(i64, Seq<u8>), CodecError>((v, rest)),
{
    let d = (bits - 1) as u64;
    let b: u8 = ((v as u8) & 0x3f) | (if v < 0 {
        0x40u8
    } else {
        0u8
    });
    let v2 = v >> 6u64;
    if v2 == 0 || v2 == -1 {
        assert(vli_enc(v) =~= seq![b]);
        assert((vli_enc(v) + rest).drop_first() =~= rest);
        let bb: u8 = ((v as u8) & 0x3f) | (if v < 0 {
            0x40u8
        } else {
            0u8
        });
        assert(bb & 0x80 == 0 && (bb & 0x40 != 0) == (v < 0)) by (bit_vector)
            requires
                bb == ((v as u8) & 0x3f) | (if v < 0 {
                    0x40u8
                } else {
                    0u8
                }) && (v >> 6u64 == 0 || v >> 6u64 == -1),
        ;
        assert((if v < 0 {
            ((bb & 0x3f) as i64) | ((-1i64) << 6u64)
        } else {
            (bb & 0x3f) as i64
        }) == v) by (bit_vector)
            requires
                bb == ((v as u8) & 0x3f) | (if v < 0 {
                    0x40u8
                } else {
                    0u8
                }) && (v >> 6u64 == 0 || v >> 6u64 == -1),
        ;
    } else {
        assert(vli_enc(v) =~= seq![b | 0x80] + vli_enc_rest(v2));
        assert((vli_enc(v) + rest).drop_first() =~= vli_enc_rest(v2) + rest);
        let bb: u8 = b | 0x80;
        assert(bb & 0x80 != 0 && (bb & 0x40 != 0) == (v < 0)) by (bit_vector)
            requires
                bb == (((v as u8) & 0x3f) | (if v < 0 {
                    0x40u8
                } else {
                    0u8
                })) | 0x80,
        ;
        let sign = v < 0;
        let acc = (bb & 0x3f) as i64;
        assert(bits > 6) by {
            assert(d <= 5 ==> (v >> 6u64 == 0 || v >> 6u64 == -1)) by (bit_vector)
                requires
                    v >> d == 0 || v >> d == -1,
            ;
        }
        let d6 = (bits - 6) as u64;
        assert(sign == (v2 < 0) && v2 != 0 && v2 != -1 && v2 >> d6 == (if sign {
            -1i64
        } else {
            0i64
        })) by (bit_vector)
            requires
                v2 == v >> 6u64 && !(v2 == 0 || v2 == -1) && sign == (v < 0) && (v >> d == 0 || v
                    >> d == -1) && 5 < d <= 63 && d6 + 5 == d,
        ;
        lemma_vli_enc_dec_cont(v2, acc, 6, sign, rest, bits);
        assert(((((((v as u8) & 0x3f) | (if v < 0 {
            0x40u8
        } else {
            0u8
        })) | 0x80) & 0x3f) as i64) | ((v >> 6u64) << 6u64) == v) by (bit_vector);
    }
}

/// Round trip for unsigned variable-length integers: whatever `encode`
/// emitted for a value representable in `bits` bits, `decode` with the
/// same ceiling reads back, leaving exactly the trailing bytes.
pub proof fn lemma_vlu_round_trip(v: u64, rest: Seq<u8>, bits: int)
    requires
        0 < bits <= 64,
        bits == 64 || v >> (bits as u64) == 0,
    ensures
        vlu_dec(vlu_enc(v) + rest, bits) == Ok::<(u64, Seq<u8>), CodecError>((v, rest)),
{
    let bitsu = bits as u64;
    if v >> 7u64 == 0 {
        assert(vlu_enc(v) =~= seq![v as u8]);
        assert((vlu_enc(v) + rest).drop_first() =~= rest);
        assert((v as u8) & 0x80 == 0 && (((v as u8) & 0x7f) as u64) == v) by (bit_vector)
            requires
                v >> 7u64 == 0,
        ;
    } else {
        let b: u8 = (v as u8) | 0x80;
        assert(vlu_enc(v) =~= seq![b] + vlu_enc(v >> 7u64));
        assert((vlu_enc(v) + rest).drop_first() =~= vlu_enc(v >> 7u64) + rest);
        assert(((v as u8) | 0x80) & 0x80 != 0) by (bit_vector);
        let acc = (b & 0x7f) as u64;
        assert(bits > 7) by {
            if bits < 64 {
                assert(bitsu <= 7 ==> v >> 7u64 == 0) by (bit_vector)
                    requires
                        v >> bitsu == 0 && bitsu > 0,
                ;
            }
        }
        let bm7 = (bits - 7) as u64;
        assert((v >> 7u64) >= 1 && (v >> 7u64) >> bm7 == 0) by (bit_vector)
            requires
                v >> 7u64 != 0 && 7 < bitsu <= 64 && bm7 + 7 == bitsu && (bitsu == 64 || v >> bitsu
                    == 0),
        ;
        lemma_vlu_enc_dec_cont(v >> 7u64, acc, 7, rest, bits);
        assert(((((v as u8) | 0x80) & 0x7f) as u64) | ((v >> 7u64) << 7u64) == v) by (bit_vector);
    }
}

impl WasmDecoder {
    /// Decodes a variable-length unsigned integer, accumulating 7 bits per
    /// byte while the continuation bit is set; fails with `IntegerTooLong`
    /// once the bit offset reaches `bits` with the continuation still set.
    /// After an error the cursor's position is unspecified: a malformed
    /// value aborts the decode of the whole enclosing structure.
    pub fn vlu_decode(&mut self, bits: i32) -> (r: Result<u64, CodecError>)
        requires
            old(self).wf(),
            bits <= 64,
        ensures
            final(self).wf(),
            match vlu_dec(old(self)@, bits as int) {
                Ok(p) => r == Ok::<u64, CodecError>(p.0) && final(self)@ == p.1,
                Err(e) => r == Err::<u64, CodecError>(e),
            },
    {
        let mut b = match self.byte() {
            Ok(x) => x,
            Err(e) => { return Err(e) },
        };
        let mut value: u64 = (b & 0x7f) as u64;
        let mut s: i32 = 7;
        while b & 0x80 != 0
            invariant
                self.wf(),
                bits <= 64,
                7 <= s <= 70,
                vlu_dec(old(self)@, bits as int) == (if b & 0x80 != 0 {
                    vlu_dec_cont(self@, value, s as u64, bits as int)
                } else {
                    Ok::<(u64, Seq<u8>), CodecError>((value, self@))
                }),
            decreases self@.len() + 1,
        {
            if s >= bits {
                return Err(CodecError::IntegerTooLong);
            }
            b = match self.byte() {
                Ok(x) => x,
                Err(e) => { return Err(e) },
            };
            value = value | (((b & 0x7f) as u64) << (s as u64));
            s = s + 7;
        }
        Ok(value)
    }

    /// Decodes a variable-length signed integer: the first byte carries 6
    /// payload bits and the sign flag in bit 6; on completion a set sign
    /// flag extends the sign into all bits at and above the final offset.
    /// After an error the cursor's position is unspecified: a malformed
    /// value aborts the decode of the whole enclosing structure.
    pub fn vli_decode(&mut self, bits: i32) -> (r: Result<i64, CodecError>)
        requires
            old(self).wf(),
            bits <= 64,
        ensures
            final(self).wf(),
            match vli_dec(old(self)@, bits as int) {
                Ok(p) => r == Ok::<i64, CodecError>(p.0) && final(self)@ == p.1,
                Err(e) => r == Err::<i64, CodecError>(e),
            },
    {
        let mut b = match self.byte() {
            Ok(x) => x,
            Err(e) => { return Err(e) },
        };
        let sign: u8 = b & 0x40;
        let mut value: i64 = (b & 0x3f) as i64;
        let mut s: i32 = 6;
        while b & 0x80 != 0
            invariant
                self.wf(),
                bits <= 64,
                6 <= s <= 70,
                vli_dec(old(self)@, bits as int) == (if b & 0x80 != 0 {
                    vli_dec_cont(self@, value, s as u64, sign != 0, bits as int)
                } else {
                    Ok::<(i64, Seq<u8>), CodecError>(
                        (
                            (if sign != 0 {
                                vli_sign_extend(value, s as u64)
                            } else {
                                value
                            }),
                            self@,
                        ),
                    )
                }),
            decreases self@.len(),
        {
            if s >= bits {
                return Err(CodecError::IntegerTooLong);
            }
            b = match self.byte() {
                Ok(x) => x,
                Err(e) => { return Err(e) },
            };
            value = value | (((b & 0x7f) as i64) << (s as u64));
            s = s + 7;
        }
        if sign != 0 && s < 64 {
            // negative: extend the sign into the bits above the final offset
            value = value | ((-1i64) << (s as u64));
        }
        Ok(value)
    }

    /// Decodes the next variable-length substring of bytes: a VLU length
    /// (32-bit ceiling) followed by that many bytes. After a malformed
    /// length the cursor's position is unspecified.
    pub fn bytes(&mut self) -> (r: Result<Vec<u8>, CodecError>)
        requires
            old(self).wf(),
        ensures
            final(self).wf(),
            match vlu_dec(old(self)@, 32) {
                Ok(p) => if p.1.len() >= p.0 {
                    r is Ok && r->Ok_0@ == p.1.take(p.0 as int) && final(self)@ == p.1.skip(
                        p.0 as int,
                    )
                } else {
                    r == Err::<Vec<u8>, CodecError>(CodecError::BufferExhausted) && final(self)@
                        == p.1
                },
                Err(e) => r == Err::<Vec<u8>, CodecError>(e),
            },
    {
        let length = match self.vlu_decode(32) {
            Ok(x) => x,
            Err(e) => { return Err(e) },
        };
        if length > self.remaining() as u64 {
            return Err(CodecError::BufferExhausted);
        }
        self.fixed_bytes(length as usize)
    }
}

impl WasmEncoder {
    /// Encodes a variable-length signed integer: the first byte takes the
    /// low 6 bits and the sign flag, then 7-bit groups of the arithmetic
    /// shift follow while bits beyond the sign remain.
    pub fn vli_encode(&mut self, value: i64)
        ensures
            final(self)@ == old(self)@ + vli_enc(value),
    {
        let mut b: u8 = (value as u8) & 0x3f;
        let mut val: i64 = value >> 6u64;
        let mut fin: i64 = 0;
        if val < 0 {
            b = b | 0x40;
            fin = -1;
        }
        proof {
            assert((value >> 6u64 < 0) == (value < 0) && (value < 0 ==> value >> 6u64 <= -1) && (
            value >= 0 ==> value >> 6u64 >= 0)) by (bit_vector);
            assert(((value as u8) & 0x3f) | 0u8 == (value as u8) & 0x3f) by (bit_vector);
            assert(old(self)@ + vli_enc(value) =~= self@ + (if val == fin {
                seq![b]
            } else {
                seq![b | 0x80] + vli_enc_rest(val)
            }));
        }
        while val != fin
            invariant
                fin == (if value < 0 {
                    -1i64
                } else {
                    0i64
                }),
                value < 0 ==> val <= -1,
                value >= 0 ==> val >= 0,
                old(self)@ + vli_enc(value) == self@ + (if val == fin {
                    seq![b]
                } else {
                    seq![b | 0x80] + vli_enc_rest(val)
                }),
            decreases (if val >= 0 {
                val as int
            } else {
                -1 - val as int
            }),
        {
            proof {
                assert(val >= 0 && val != 0 ==> 0 <= val >> 7u64 < val) by (bit_vector);
                assert(val < 0 && val != -1 ==> val < val >> 7u64 <= -1) by (bit_vector);
                assert(vli_enc_rest(val) =~= (if val >> 7u64 == 0 || val >> 7u64 == -1 {
                    seq![(val as u8) & 0x7f]
                } else {
                    seq![((val as u8) & 0x7f) | 0x80] + vli_enc_rest(val >> 7u64)
                }));
            }
            self.buf.push(b | 0x80);
            proof {
                assert(old(self)@ + vli_enc(value) =~= self@ + (if val >> 7u64 == fin {
                    seq![(val as u8) & 0x7f]
                } else {
                    seq![((val as u8) & 0x7f) | 0x80] + vli_enc_rest(val >> 7u64)
                }));
            }
            b = (val as u8) & 0x7f;
            val = val >> 7u64;
        }
        self.buf.push(b);
        proof {
            assert(self@ =~= old(self)@ + vli_enc(value));
        }
    }

    /// Encodes a variable-length unsigned integer: emits the low 7 bits
    /// with the continuation bit set while more bits remain.
    pub fn vlu_encode(&mut self, value: u64)
        ensures
            final(self)@ == old(self)@ + vlu_enc(value),
    {
        let mut b: u8 = value as u8;
        let mut val: u64 = value >> 7;
        let ghost mut cur: u64 = value;
        while val != 0
            invariant
                b == cur as u8,
                val == cur >> 7u64,
                old(self)@ + vlu_enc(value) == self@ + vlu_enc(cur),
            decreases val,
        {
            proof {
                assert(val != 0 ==> val >> 7u64 < val) by (bit_vector);
                assert(vlu_enc(cur) =~= seq![(cur as u8) | 0x80] + vlu_enc(cur >> 7u64));
            }
            self.buf.push(b | 0x80);
            proof {
                assert(old(self)@ + vlu_enc(value) =~= self@ + vlu_enc(cur >> 7u64));
                cur = cur >> 7u64;
            }
            b = val as u8;
            val = val >> 7;
        }
        self.buf.push(b);
        proof {
            assert(self@ =~= old(self)@ + vlu_enc(value));
        }
    }
}

/// Encode buffer: a growable, append-only byte sequence.
/// The view is the bytes emitted so far.
pub struct WasmEncoder {
    buf: Vec<u8>,
}

impl View for WasmEncoder {
    type V = Seq<u8>;

    closed spec fn view(&self) -> Seq<u8> {
        self.buf@
    }
}

impl WasmEncoder {
    /// Constructs an empty encoder.
    pub fn new() -> (r: WasmEncoder)
        ensures
            r@ == Seq::<u8>::empty(),
    {
        let r = WasmEncoder { buf: Vec::new() };
        proof {
            assert(r@ =~= Seq::<u8>::empty());
        }
        r
    }

    /// Appends a single byte.
    pub fn byte(&mut self, value: u8)
        ensures
            final(self)@ == old(self)@.push(value),
    {
        self.buf.push(value);
    }

    /// Returns a copy of the encoded byte buffer.
    pub fn buf(&self) -> (r: Vec<u8>)
        ensures
            r@ == self@,
    {
        let r = self.buf.clone();
        proof {
            assert(r@ =~= self@);
        }
        r
    }

    /// Appends a variable-length substring of bytes: the VLU-encoded
    /// length followed by the bytes themselves.
    pub fn bytes(&mut self, value: &[u8])
        ensures
            final(self)@ == old(self)@ + vlu_enc(value@.len() as u64) + value@,
    {
        let length = value.len();
        self.vlu_encode(length as u64);
        let r = self.fixed_bytes(value, length);
        proof {
            assert(r is Ok);
            assert(self@ =~= old(self)@ + vlu_enc(value@.len() as u64) + value@);
        }
    }

    /// Appends a fixed-size substring of bytes, after checking that it has
    /// the expected length.
    pub fn fixed_bytes(&mut self, value: &[u8], length: usize) -> (r: Result<(), CodecError>)
        ensures
            value@.len() == length ==> r == Ok::<(), CodecError>(()) && final(self)@ == old(
                self,
            )@ + value@,
            value@.len() != length ==> r == Err::<(), CodecError>(CodecError::LengthMismatch)
                && final(self)@ == old(self)@,
    {
        if value.len() != length {
            return Err(CodecError::LengthMismatch);
        }
        let mut i: usize = 0;
        while i < value.len()
            invariant
                i <= value.len(),
                self@ == old(self)@ + value@.take(i as int),
            decreases value.len() - i,
        {
            self.buf.push(value[i]);
            i = i + 1;
            proof {
                assert(self@ =~= old(self)@ + value@.take(i as int));
            }
        }
        proof {
            assert(self@ =~= old(self)@ + value@);
        }
        Ok(())
    }
}

/// Whether `c` is a hex digit (case-insensitive).
pub open spec fn is_hex_digit(c: char) -> bool {
    (0x30 <= c as u32 && c as u32 <= 0x39) || (0x61 <= c as u32 && c as u32 <= 0x66) || (0x41
        <= c as u32 && c as u32 <= 0x46)
}

/// The value of a hex digit; meaningful only under `is_hex_digit`.
pub open spec fn hex_val(c: char) -> int {
    if 0x30 <= c as u32 && c as u32 <= 0x39 {
        c as u32 - 0x30
    } else if 0x61 <= c as u32 && c as u32 <= 0x66 {
        c as u32 - 0x61 + 10
    } else {
        c as u32 - 0x41 + 10
    }
}

/// The lowercase hex digit for a value below 16.
pub open spec fn hex_digit_char(n: int) -> char {
    if n == 0 {
        '0'
    } else if n == 1 {
        '1'
    } else if n == 2 {
        '2'
    } else if n == 3 {
        '3'
    } else if n == 4 {
        '4'
    } else if n == 5 {
        '5'
    } else if n == 6 {
        '6'
    } else if n == 7 {
        '7'
    } else if n == 8 {
        '8'
    } else if n == 9 {
        '9'
    } else if n == 10 {
        'a'
    } else if n == 11 {
        'b'
    } else if n == 12 {
        'c'
    } else if n == 13 {
        'd'
    } else if n == 14 {
        'e'
    } else {
        'f'
    }
}

/// Whether a character sequence is a well-formed hex string: an even
/// number of characters, all of them hex digits.
pub open spec fn hex_decode_ok(s: Seq<char>) -> bool {
    s.len() % 2 == 0 && (forall|i: int| 0 <= i < s.len() ==> is_hex_digit(#[trigger] s[i]))
}

/// The bytes a well-formed hex string denotes, high nibble first.
pub open spec fn hex_bytes(s: Seq<char>) -> Seq<u8> {
    Seq::new((s.len() / 2) as nat, |i: int| (hex_val(s[2 * i]) * 16 + hex_val(s[2 * i + 1])) as u8)
}

/// The lowercase hex text for a byte sequence, high nibble first.
pub open spec fn hex_chars(b: Seq<u8>) -> Seq<char> {
    Seq::new(
        b.len() * 2,
        |i: int|
            if i % 2 == 0 {
                hex_digit_char((b[i / 2] >> 4u8) as int)
            } else {
                hex_digit_char((b[i / 2] & 0xf) as int)
            },
    )
}

/// Converts one hex digit to its value; any other character is the
/// invalid-digit error.
pub fn hexer(hex_digit: char) -> (r: Result<u8, CodecError>)
    ensures
        is_hex_digit(hex_digit) ==> r == Ok::<u8, CodecError>(hex_val(hex_digit) as u8),
        !is_hex_digit(hex_digit) ==> r == Err::<u8, CodecError>(CodecError::InvalidDigit),
{
    let c = hex_digit as u32;
    if 0x30 <= c && c <= 0x39 {
        Ok((c - 0x30) as u8)
    } else if 0x61 <= c && c <= 0x66 {
        Ok((c - 0x61 + 10) as u8)
    } else if 0x41 <= c && c <= 0x46 {
        Ok((c - 0x41 + 10) as u8)
    } else {
        Err(CodecError::InvalidDigit)
    }
}

/// Decodes hex text to bytes: fails on an odd number of characters, or
/// on any character that is no hex digit.
pub fn hex_decode(value: &str) -> (r: Result<Vec<u8>, CodecError>)
    ensures
        value@.len() % 2 != 0 ==> r == Err::<Vec<u8>, CodecError>(CodecError::OddLength),
        value@.len() % 2 == 0 && !hex_decode_ok(value@) ==> r == Err::<Vec<u8>, CodecError>(
            CodecError::InvalidDigit,
        ),
        hex_decode_ok(value@) ==> r is Ok && r->Ok_0@ == hex_bytes(value@),
{
    let digits = value.unicode_len();
    if digits % 2 != 0 {
        return Err(CodecError::OddLength);
    }
    let mut buf: Vec<u8> = Vec::new();
    let mut i: usize = 0;
    while i < digits / 2
        invariant
            digits == value@.len(),
            digits % 2 == 0,
            i <= digits / 2,
            forall|j: int| 0 <= j < 2 * i ==> is_hex_digit(#[trigger] value@[j]),
            buf@ == hex_bytes(value@).take(i as int),
        decreases digits / 2 - i,
    {
        let hi = match hexer(value.get_char(2 * i)) {
            Ok(x) => x,
            Err(e) => { return Err(e) },
        };
        let lo = match hexer(value.get_char(2 * i + 1)) {
            Ok(x) => x,
            Err(e) => { return Err(e) },
        };
        buf.push(hi * 16 + lo);
        i = i + 1;
        proof {
            assert(buf@ =~= hex_bytes(value@).take(i as int));
        }
    }
    proof {
        assert(buf@ =~= hex_bytes(value@));
    }
    Ok(buf)
}

/// The lowercase hex digit for a nibble, as a one-character string.
pub(crate) fn hex_digit_str(nibble: u8) -> (r: &'static str)
    requires
        nibble < 16,
    ensures
        r@ =~= seq![hex_digit_char(nibble as int)],
{
    let r = if nibble == 0 {
        "0"
    } else if nibble == 1 {
        "1"
    } else if nibble == 2 {
        "2"
    } else if nibble == 3 {
        "3"
    } else if nibble == 4 {
        "4"
    } else if nibble == 5 {
        "5"
    } else if nibble == 6 {
        "6"
    } else if nibble == 7 {
        "7"
    } else if nibble == 8 {
        "8"
    } else if nibble == 9 {
        "9"
    } else if nibble == 10 {
        "a"
    } else if nibble == 11 {
        "b"
    } else if nibble == 12 {
        "c"
    } else if nibble == 13 {
        "d"
    } else if nibble == 14 {
        "e"
    } else {
        "f"
    };
    proof {
        reveal_strlit("0");
        reveal_strlit("1");
        reveal_strlit("2");
        reveal_strlit("3");
        reveal_strlit("4");
        reveal_strlit("5");
        reveal_strlit("6");
        reveal_strlit("7");
        reveal_strlit("8");
        reveal_strlit("9");
        reveal_strlit("a");
        reveal_strlit("b");
        reveal_strlit("c");
        reveal_strlit("d");
        reveal_strlit("e");
        reveal_strlit("f");
    }
    r
}

/// Encodes bytes as lowercase hex text, two characters per byte, high
/// nibble first.
pub fn hex_encode(buf: &[u8]) -> (r: String)
    ensures
        r@ == hex_chars(buf@),
{
    let bytes = slice_to_vec(buf);
    let mut hex = String::new();
    let mut i: usize = 0;
    while i < bytes.len()
        invariant
            bytes@ == buf@,
            i <= bytes.len(),
            hex@ == hex_chars(buf@).take(2 * i as int),
        decreases bytes.len() - i,
    {
        let b = bytes[i];
        proof {
            assert(b >> 4u8 < 16 && b & 0xf < 16) by (bit_vector);
        }
        hex.append(hex_digit_str(b >> 4));
        hex.append(hex_digit_str(b & 0xf));
        i = i + 1;
        proof {
            assert(hex@ =~= hex_chars(buf@).take(2 * i as int));
        }
    }
    proof {
        assert(hex@ =~= hex_chars(buf@));
    }
    hex
}

/// Hex round trip: decoding what `hex_encode` produced gives back the
/// original bytes, for every byte sequence.
pub proof fn lemma_hex_round_trip(b: Seq<u8>)
    ensures
        hex_decode_ok(hex_chars(b)),
        hex_bytes(hex_chars(b)) == b,
{
    assert forall|n: int| 0 <= n < 16 implies is_hex_digit(hex_digit_char(n)) && hex_val(
        hex_digit_char(n),
    ) == n by {}
    assert forall|i: int| 0 <= i < hex_chars(b).len() implies is_hex_digit(
        #[trigger] hex_chars(b)[i],
    ) by {
        let x = b[i / 2];
        assert(x >> 4u8 < 16 && x & 0xf < 16) by (bit_vector);
    }
    assert forall|i: int| 0 <= i < b.len() implies hex_bytes(hex_chars(b))[i] == b[i] by {
        let x = b[i];
        assert(x >> 4u8 < 16 && x & 0xf < 16) by (bit_vector);
        assert(((x >> 4u8) * 16 + (x & 0xf)) as u8 == x) by (bit_vector);
    }
    assert(hex_bytes(hex_chars(b)) =~= b);
}

/// Case normalization of a hex digit: uppercase digits map to their
/// lowercase form, every other character stays as it is.
pub open spec fn lower_hex_char(c: char) -> char {
    if 0x41 <= c as u32 && c as u32 <= 0x46 {
        hex_digit_char(c as u32 - 0x41 + 10)
    } else {
        c
    }
}

/// Hex re-encoding: encoding what `hex_decode` read from a well-formed
/// hex string reproduces that string up to case normalization.
pub proof fn lemma_hex_reencode(s: Seq<char>)
    requires
        hex_decode_ok(s),
    ensures
        hex_chars(hex_bytes(s)) == s.map_values(|c: char| lower_hex_char(c)),
{
    assert forall|i: int| 0 <= i < s.len() implies hex_chars(hex_bytes(s))[i] == lower_hex_char(
        s[i],
    ) by {
        let c1 = s[if i % 2 == 0 {
            i
        } else {
            i - 1
        }];
        let c2 = s[if i % 2 == 0 {
            i + 1
        } else {
            i
        }];
        let v1 = hex_val(c1);
        let v2 = hex_val(c2);
        let x = (v1 * 16 + v2) as u8;
        assert(0 <= v1 < 16 && 0 <= v2 < 16);
        let v1b = v1 as u8;
        let v2b = v2 as u8;
        assert((((v1b * 16 + v2b) as u8) >> 4u8) == v1b && (((v1b * 16 + v2b) as u8) & 0xf) == v2b)
            by (bit_vector)
            requires
                v1b < 16 && v2b < 16,
        ;
    }
    assert(hex_chars(hex_bytes(s)) =~= s.map_values(|c: char| lower_hex_char(c)));
}

/// The decimal text for a number, most significant digit first.
pub open spec fn dec_chars(n: nat) -> Seq<char>
    decreases n,
{
    if n < 10 {
        seq![hex_digit_char(n as int)]
    } else {
        dec_chars(n / 10) + seq![hex_digit_char((n % 10) as int)]
    }
}

/// The decimal text for an unsigned 64-bit value.
pub fn u64_to_string(value: u64) -> (r: String)
    ensures
        r@ == dec_chars(value as nat),
    decreases value,
{
    let ds = hex_digit_str((value % 10) as u8);
    if value < 10 {
        String::from_str(ds)
    } else {
        let mut s = u64_to_string(value / 10);
        s.append(ds);
        proof {
            assert(s@ =~= dec_chars(value as nat));
        }
        s
    }
}

} // verus!
