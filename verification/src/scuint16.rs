//! The 16-bit unsigned value type: its codec functions and the pair of
//! typed accessor wrappers (immutable view, mutable view) over a proxy.
//! Every field wrapper follows this same pattern.

use vstd::prelude::*;
use vstd::slice::slice_to_vec;
use crate::codec::dec_chars;
use crate::codec::u64_to_string;
use crate::codec::vlu_dec;
use crate::codec::vlu_enc;
use crate::codec::CodecError;
use crate::codec::WasmDecoder;
use crate::codec::WasmEncoder;
use crate::proxy::KvStore;
use crate::proxy::Proxy;

verus! {

/// The number of bytes in the fixed-width representation.
pub const SC_UINT16_LENGTH: usize = 2;

/// The fixed-width little-endian bytes of a 16-bit value.
pub open spec fn uint16_le_bytes(v: u16) -> Seq<u8> {
    seq![(v & 0xff) as u8, (v >> 8u16) as u8]
}

/// The 16-bit value two little-endian bytes hold.
pub open spec fn uint16_of_bytes(b: Seq<u8>) -> u16 {
    (b[0] as u16 + (b[1] as u16) * 256) as u16
}

/// Decodes a 16-bit unsigned value from the wire format: a VLU with a
/// 16-bit ceiling, truncated to 16 bits.
pub fn uint16_decode(dec: &mut WasmDecoder) -> (r: Result<u16, CodecError>)
    requires
        old(dec).wf(),
    ensures
        final(dec).wf(),
        match vlu_dec(old(dec)@, 16) {
            Ok(p) => r == Ok::<u16, CodecError>(p.0 as u16) && final(dec)@ == p.1,
            Err(e) => r == Err::<u16, CodecError>(e),
        },
{
    match dec.vlu_decode(16) {
        Ok(v) => Ok(v as u16),
        Err(e) => Err(e),
    }
}

/// Encodes a 16-bit unsigned value into the wire format: a VLU.
pub fn uint16_encode(enc: &mut WasmEncoder, value: u16)
    ensures
        final(enc)@ == old(enc)@ + vlu_enc(value as u64),
{
    enc.vlu_encode(value as u64);
}

/// Reads a 16-bit value from its stored representation: the empty
/// sequence (a key never written) reads as zero, two little-endian
/// bytes as the value they hold.
pub fn uint16_from_bytes(buf: &[u8]) -> (r: u16)
    requires
        buf@.len() == 0 || buf@.len() == 2,
    ensures
        buf@.len() == 0 ==> r == 0,
        buf@.len() == 2 ==> r == uint16_of_bytes(buf@),
{
    if buf.len() == 0 {
        return 0;
    }
    let b = slice_to_vec(buf);
    b[0] as u16 + (b[1] as u16) * 256
}

/// The stored representation of a 16-bit value: two little-endian bytes.
pub fn uint16_to_bytes(value: u16) -> (r: Vec<u8>)
    ensures
        r@ == uint16_le_bytes(value),
{
    let mut v: Vec<u8> = Vec::new();
    v.push((value & 0xff) as u8);
    v.push((value >> 8) as u8);
    proof {
        assert(v@ =~= uint16_le_bytes(value));
    }
    v
}

/// The decimal text for a 16-bit value.
pub fn uint16_to_string(value: u16) -> (r: String)
    ensures
        r@ == dec_chars(value as nat),
{
    u64_to_string(value as u64)
}

/// Whether the payload stored at `k` (if any) is a well-formed 16-bit
/// representation: absent, empty, or exactly two bytes.
pub open spec fn uint16_wf_at(m: Map<Seq<char>, Seq<u8>>, k: Seq<char>) -> bool {
    m.contains_key(k) ==> (m[k].len() == 0 || m[k].len() == 2)
}

/// The 16-bit value the store holds at `k`: a key never written, or one
/// holding the empty payload, reads as the type's zero value.
pub open spec fn uint16_at(m: Map<Seq<char>, Seq<u8>>, k: Seq<char>) -> u16 {
    if m.contains_key(k) && m[k].len() == 2 {
        uint16_of_bytes(m[k])
    } else {
        0
    }
}

/// Immutable view of a 16-bit field in the key-value space. The view is
/// the key the wrapped proxy addresses.
pub struct ScImmutableUint16 {
    proxy: Proxy,
}

impl View for ScImmutableUint16 {
    type V = Seq<char>;

    closed spec fn view(&self) -> Seq<char> {
        self.proxy@
    }
}

impl ScImmutableUint16 {
    /// Wraps a proxy locating the field's storage key; the store is not
    /// touched.
    pub fn new(proxy: Proxy) -> (r: ScImmutableUint16)
        ensures
            r@ == proxy@,
    {
        ScImmutableUint16 { proxy }
    }

    /// Whether the field was ever written; no decoding is performed.
    pub fn has_value(&self, store: &KvStore) -> (r: bool)
        requires
            store.wf(),
        ensures
            r == store@.contains_key(self@),
    {
        self.proxy.has(store)
    }

    /// The decimal text of the field's value.
    pub fn to_string(&self, store: &KvStore) -> (r: String)
        requires
            store.wf(),
            uint16_wf_at(store@, self@),
        ensures
            r@ == dec_chars(uint16_at(store@, self@) as nat),
    {
        uint16_to_string(self.value(store))
    }

    /// The field's value; a key never written reads as zero.
    pub fn value(&self, store: &KvStore) -> (r: u16)
        requires
            store.wf(),
            uint16_wf_at(store@, self@),
        ensures
            r == uint16_at(store@, self@),
    {
        let bytes = self.proxy.get(store);
        uint16_from_bytes(bytes.as_slice())
    }
}

/// Mutable view of a 16-bit field in the key-value space: the immutable
/// operations plus a full-overwrite store and a delete. The view is the
/// key the wrapped proxy addresses.
pub struct ScMutableUint16 {
    proxy: Proxy,
}

impl View for ScMutableUint16 {
    type V = Seq<char>;

    closed spec fn view(&self) -> Seq<char> {
        self.proxy@
    }
}

impl ScMutableUint16 {
    /// Wraps a proxy locating the field's storage key; the store is not
    /// touched.
    pub fn new(proxy: Proxy) -> (r: ScMutableUint16)
        ensures
            r@ == proxy@,
    {
        ScMutableUint16 { proxy }
    }

    /// Discards the write capability: the immutable view of the same key.
    pub fn as_immutable(&self) -> (r: ScImmutableUint16)
        ensures
            r@ == self@,
    {
        ScImmutableUint16::new(self.proxy.clone())
    }

    /// Removes the field's key from the store; afterwards the field
    /// reads as absent and its value as zero.
    pub fn delete(&self, store: &mut KvStore)
        requires
            old(store).wf(),
        ensures
            final(store).wf(),
            final(store)@ == old(store)@.remove(self@),
    {
        self.proxy.delete(store);
    }

    /// Whether the field was ever written; no decoding is performed.
    pub fn has_value(&self, store: &KvStore) -> (r: bool)
        requires
            store.wf(),
        ensures
            r == store@.contains_key(self@),
    {
        self.proxy.has(store)
    }

    /// Writes the field: exactly one full overwrite of the key's payload
    /// with the value's stored representation.
    pub fn set_value(&self, store: &mut KvStore, val: u16)
        requires
            old(store).wf(),
        ensures
            final(store).wf(),
            final(store)@ == old(store)@.insert(self@, uint16_le_bytes(val)),
    {
        let bytes = uint16_to_bytes(val);
        self.proxy.set(store, bytes.as_slice());
    }

    /// The decimal text of the field's value.
    pub fn to_string(&self, store: &KvStore) -> (r: String)
        requires
            store.wf(),
            uint16_wf_at(store@, self@),
        ensures
            r@ == dec_chars(uint16_at(store@, self@) as nat),
    {
        uint16_to_string(self.value(store))
    }

    /// The field's value; a key never written reads as zero.
    pub fn value(&self, store: &KvStore) -> (r: u16)
        requires
            store.wf(),
            uint16_wf_at(store@, self@),
        ensures
            r == uint16_at(store@, self@),
    {
        let bytes = self.proxy.get(store);
        uint16_from_bytes(bytes.as_slice())
    }
}

/// Default-on-absence, for every store state, key and value: a key
/// never written is well formed, reads as absent and as zero; after a
/// write of `x` the key exists and reads as `x`; after a delete the
/// state reverts to the absent case.
pub proof fn lemma_uint16_default_on_absence(m: Map<Seq<char>, Seq<u8>>, k: Seq<char>, x: u16)
    ensures
        !m.contains_key(k) ==> uint16_wf_at(m, k) && uint16_at(m, k) == 0,
        m.insert(k, uint16_le_bytes(x)).contains_key(k),
        uint16_wf_at(m.insert(k, uint16_le_bytes(x)), k),
        uint16_at(m.insert(k, uint16_le_bytes(x)), k) == x,
        !m.insert(k, uint16_le_bytes(x)).remove(k).contains_key(k),
        uint16_at(m.insert(k, uint16_le_bytes(x)).remove(k), k) == 0,
{
    assert((((x & 0xff) as u8) as u16 + (((x >> 8u16) as u8) as u16) * 256) as u16 == x)
        by (bit_vector);
}

} // verus!
