//! The 64-bit unsigned value type: stored as eight little-endian bytes,
//! with the pair of typed accessor wrappers (immutable view, mutable
//! view) over a proxy.

use vstd::prelude::*;

use crate::codec::dec_chars;
use crate::codec::u64_to_string;
use crate::proxy::KvStore;
use crate::proxy::Proxy;

verus! {

/// The fixed-width little-endian bytes of a 64-bit value.
pub open spec fn uint64_le_bytes(v: u64) -> Seq<u8> {
    seq![
        (v & 0xff) as u8,
        ((v >> 8u64) & 0xff) as u8,
        ((v >> 16u64) & 0xff) as u8,
        ((v >> 24u64) & 0xff) as u8,
        ((v >> 32u64) & 0xff) as u8,
        ((v >> 40u64) & 0xff) as u8,
        ((v >> 48u64) & 0xff) as u8,
        ((v >> 56u64) & 0xff) as u8,
    ]
}

/// The 64-bit value eight little-endian bytes hold.
pub open spec fn uint64_of_bytes(b: Seq<u8>) -> u64 {
    (b[0] as u64 + (b[1] as u64) * 0x100 + (b[2] as u64) * 0x10000 + (b[3] as u64) * 0x1000000 + (
    b[4] as u64) * 0x100000000 + (b[5] as u64) * 0x10000000000 + (b[6] as u64) * 0x1000000000000 + (
    b[7] as u64) * 0x100000000000000) as u64
}

/// Whether the payload stored at `k` (if any) is a well-formed 64-bit
/// representation: absent, empty, or exactly eight bytes.
pub open spec fn uint64_wf_at(m: Map<Seq<char>, Seq<u8>>, k: Seq<char>) -> bool {
    m.contains_key(k) ==> (m[k].len() == 0 || m[k].len() == 8)
}

/// The 64-bit value the store holds at `k`: a key never written, or one
/// holding the empty payload, reads as the type's zero value.
pub open spec fn uint64_at(m: Map<Seq<char>, Seq<u8>>, k: Seq<char>) -> u64 {
    if m.contains_key(k) && m[k].len() == 8 {
        uint64_of_bytes(m[k])
    } else {
        0
    }
}

/// Immutable view of a 64-bit field in the key-value space. The view is
/// the key the wrapped proxy addresses.
pub struct ScImmutableUint64 {
    proxy: Proxy,
}

impl View for ScImmutableUint64 {
    type V = Seq<char>;

    closed spec fn view(&self) -> Seq<char> {
        self.proxy@
    }
}

impl ScImmutableUint64 {
    /// Wraps a proxy locating the field's storage key; the store is not
    /// touched.
    pub fn new(proxy: Proxy) -> (r: ScImmutableUint64)
        ensures
            r@ == proxy@,
    {
        ScImmutableUint64 { proxy }
    }

    /// Whether the field was ever written; no decoding is performed.
    pub fn has_value(&self, store: &KvStore) -> (r: bool)
        requires
            store.wf(),
        ensures
            r == store@.contains_key(self@),
    {
        self.proxy.has(store)
    }

    /// The decimal text of the field's value.
    pub fn to_string(&self, store: &KvStore) -> (r: String)
        requires
            store.wf(),
            uint64_wf_at(store@, self@),
        ensures
            r@ == dec_chars(uint64_at(store@, self@) as nat),
    {
        u64_to_string(self.value(store))
    }

    /// The field's value; a key never written reads as zero.
    pub fn value(&self, store: &KvStore) -> (r: u64)
        requires
            store.wf(),
            uint64_wf_at(store@, self@),
        ensures
            r == uint64_at(store@, self@),
    {
        let bytes = self.proxy.get(store);
        if bytes.len() == 0 {
            0
        } else {
            bytes[0] as u64 + (bytes[1] as u64) * 0x100 + (bytes[2] as u64) * 0x10000 + (
            bytes[3] as u64) * 0x1000000 + (bytes[4] as u64) * 0x100000000 + (bytes[5] as u64)
                * 0x10000000000 + (bytes[6] as u64) * 0x1000000000000 + (bytes[7] as u64)
                * 0x100000000000000
        }
    }
}

/// Mutable view of a 64-bit field in the key-value space: the immutable
/// operations plus a full-overwrite store and a delete. The view is the
/// key the wrapped proxy addresses.
pub struct ScMutableUint64 {
    proxy: Proxy,
}

impl View for ScMutableUint64 {
    type V = Seq<char>;

    closed spec fn view(&self) -> Seq<char> {
        self.proxy@
    }
}

impl ScMutableUint64 {
    /// Wraps a proxy locating the field's storage key; the store is not
    /// touched.
    pub fn new(proxy: Proxy) -> (r: ScMutableUint64)
        ensures
            r@ == proxy@,
    {
        ScMutableUint64 { proxy }
    }

    /// Discards the write capability: the immutable view of the same key.
    pub fn as_immutable(&self) -> (r: ScImmutableUint64)
        ensures
            r@ == self@,
    {
        ScImmutableUint64::new(self.proxy.clone())
    }

    /// Removes the field's key from the store; afterwards the field
    /// reads as absent and its value as zero.
    pub fn delete(&self, store: &mut KvStore)
        requires
            old(store).wf(),
        ensures
            final(store).wf(),
            final(store)@ == old(store)@.remove(self@),
    {
        self.proxy.delete(store);
    }

    /// Whether the field was ever written; no decoding is performed.
    pub fn has_value(&self, store: &KvStore) -> (r: bool)
        requires
            store.wf(),
        ensures
            r == store@.contains_key(self@),
    {
        self.proxy.has(store)
    }

    /// Writes the field: exactly one full overwrite of the key's payload
    /// with the value's eight little-endian bytes.
    pub fn set_value(&self, store: &mut KvStore, val: u64)
        requires
            old(store).wf(),
        ensures
            final(store).wf(),
            final(store)@ == old(store)@.insert(self@, uint64_le_bytes(val)),
    {
        let mut bytes: Vec<u8> = Vec::new();
        bytes.push((val & 0xff) as u8);
        bytes.push(((val >> 8) & 0xff) as u8);
        bytes.push(((val >> 16) & 0xff) as u8);
        bytes.push(((val >> 24) & 0xff) as u8);
        bytes.push(((val >> 32) & 0xff) as u8);
        bytes.push(((val >> 40) & 0xff) as u8);
        bytes.push(((val >> 48) & 0xff) as u8);
        bytes.push(((val >> 56) & 0xff) as u8);
        proof {
            assert(bytes@ =~= uint64_le_bytes(val));
        }
        self.proxy.set(store, bytes.as_slice());
    }

    /// The decimal text of the field's value.
    pub fn to_string(&self, store: &KvStore) -> (r: String)
        requires
            store.wf(),
            uint64_wf_at(store@, self@),
        ensures
            r@ == dec_chars(uint64_at(store@, self@) as nat),
    {
        u64_to_string(self.value(store))
    }

    /// The field's value; a key never written reads as zero.
    pub fn value(&self, store: &KvStore) -> (r: u64)
        requires
            store.wf(),
            uint64_wf_at(store@, self@),
        ensures
            r == uint64_at(store@, self@),
    {
        let bytes = self.proxy.get(store);
        if bytes.len() == 0 {
            0
        } else {
            bytes[0] as u64 + (bytes[1] as u64) * 0x100 + (bytes[2] as u64) * 0x10000 + (
            bytes[3] as u64) * 0x1000000 + (bytes[4] as u64) * 0x100000000 + (bytes[5] as u64)
                * 0x10000000000 + (bytes[6] as u64) * 0x1000000000000 + (bytes[7] as u64)
                * 0x100000000000000
        }
    }
}

/// Writing then reading a 64-bit field gives back the value written,
/// for every store state, key and value.
pub proof fn lemma_uint64_write_read(m: Map<Seq<char>, Seq<u8>>, k: Seq<char>, x: u64)
    ensures
        uint64_wf_at(m.insert(k, uint64_le_bytes(x)), k),
        uint64_at(m.insert(k, uint64_le_bytes(x)), k) == x,
{
    assert((((x & 0xff) as u8) as u64 + ((((x >> 8u64) & 0xff) as u8) as u64) * 0x100 + ((((x
        >> 16u64) & 0xff) as u8) as u64) * 0x10000 + ((((x >> 24u64) & 0xff) as u8) as u64)
        * 0x1000000 + ((((x >> 32u64) & 0xff) as u8) as u64) * 0x100000000 + ((((x >> 40u64)
        & 0xff) as u8) as u64) * 0x10000000000 + ((((x >> 48u64) & 0xff) as u8) as u64)
        * 0x1000000000000 + ((((x >> 56u64) & 0xff) as u8) as u64) * 0x100000000000000) as u64
        == x) by (bit_vector);
}

} // verus!
