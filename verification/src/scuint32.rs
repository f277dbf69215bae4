//! The 32-bit unsigned value type: stored as four little-endian bytes,
//! with the pair of typed accessor wrappers (immutable view, mutable
//! view) over a proxy.

use vstd::prelude::*;

use crate::codec::dec_chars;
use crate::codec::u64_to_string;
use crate::proxy::KvStore;
use crate::proxy::Proxy;

verus! {

/// The fixed-width little-endian bytes of a 32-bit value.
pub open spec fn uint32_le_bytes(v: u32) -> Seq<u8> {
    seq![
        (v & 0xff) as u8,
        ((v >> 8u32) & 0xff) as u8,
        ((v >> 16u32) & 0xff) as u8,
        ((v >> 24u32) & 0xff) as u8,
    ]
}

/// The 32-bit value four little-endian bytes hold.
pub open spec fn uint32_of_bytes(b: Seq<u8>) -> u32 {
    (b[0] as u32 + (b[1] as u32) * 0x100 + (b[2] as u32) * 0x10000 + (b[3] as u32)
        * 0x1000000) as u32
}

/// Whether the payload stored at `k` (if any) is a well-formed 32-bit
/// representation: absent, empty, or exactly four bytes.
pub open spec fn uint32_wf_at(m: Map<Seq<char>, Seq<u8>>, k: Seq<char>) -> bool {
    m.contains_key(k) ==> (m[k].len() == 0 || m[k].len() == 4)
}

/// The 32-bit value the store holds at `k`: a key never written, or one
/// holding the empty payload, reads as the type's zero value.
pub open spec fn uint32_at(m: Map<Seq<char>, Seq<u8>>, k: Seq<char>) -> u32 {
    if m.contains_key(k) && m[k].len() == 4 {
        uint32_of_bytes(m[k])
    } else {
        0
    }
}

/// Immutable view of a 32-bit field in the key-value space. The view is
/// the key the wrapped proxy addresses.
pub struct ScImmutableUint32 {
    proxy: Proxy,
}

impl View for ScImmutableUint32 {
    type V = Seq<char>;

    closed spec fn view(&self) -> Seq<char> {
        self.proxy@
    }
}

impl ScImmutableUint32 {
    /// Wraps a proxy locating the field's storage key; the store is not
    /// touched.
    pub fn new(proxy: Proxy) -> (r: ScImmutableUint32)
        ensures
            r@ == proxy@,
    {
        ScImmutableUint32 { proxy }
    }

    /// Whether the field was ever written; no decoding is performed.
    pub fn has_value(&self, store: &KvStore) -> (r: bool)
        requires
            store.wf(),
        ensures
            r == store@.contains_key(self@),
    {
        self.proxy.has(store)
    }

    /// The decimal text of the field's value.
    pub fn to_string(&self, store: &KvStore) -> (r: String)
        requires
            store.wf(),
            uint32_wf_at(store@, self@),
        ensures
            r@ == dec_chars(uint32_at(store@, self@) as nat),
    {
        u64_to_string(self.value(store) as u64)
    }

    /// The field's value; a key never written reads as zero.
    pub fn value(&self, store: &KvStore) -> (r: u32)
        requires
            store.wf(),
            uint32_wf_at(store@, self@),
        ensures
            r == uint32_at(store@, self@),
    {
        let bytes = self.proxy.get(store);
        if bytes.len() == 0 {
            0
        } else {
            bytes[0] as u32 + (bytes[1] as u32) * 0x100 + (bytes[2] as u32) * 0x10000 + (
            bytes[3] as u32) * 0x1000000
        }
    }
}

/// Mutable view of a 32-bit field in the key-value space: the immutable
/// operations plus a full-overwrite store and a delete. The view is the
/// key the wrapped proxy addresses.
pub struct ScMutableUint32 {
    proxy: Proxy,
}

impl View for ScMutableUint32 {
    type V = Seq<char>;

    closed spec fn view(&self) -> Seq<char> {
        self.proxy@
    }
}

impl ScMutableUint32 {
    /// Wraps a proxy locating the field's storage key; the store is not
    /// touched.
    pub fn new(proxy: Proxy) -> (r: ScMutableUint32)
        ensures
            r@ == proxy@,
    {
        ScMutableUint32 { proxy }
    }

    /// Discards the write capability: the immutable view of the same key.
    pub fn as_immutable(&self) -> (r: ScImmutableUint32)
        ensures
            r@ == self@,
    {
        ScImmutableUint32::new(self.proxy.clone())
    }

    /// Removes the field's key from the store; afterwards the field
    /// reads as absent and its value as zero.
    pub fn delete(&self, store: &mut KvStore)
        requires
            old(store).wf(),
        ensures
            final(store).wf(),
            final(store)@ == old(store)@.remove(self@),
    {
        self.proxy.delete(store);
    }

    /// Whether the field was ever written; no decoding is performed.
    pub fn has_value(&self, store: &KvStore) -> (r: bool)
        requires
            store.wf(),
        ensures
            r == store@.contains_key(self@),
    {
        self.proxy.has(store)
    }

    /// Writes the field: exactly one full overwrite of the key's payload
    /// with the value's four little-endian bytes.
    pub fn set_value(&self, store: &mut KvStore, val: u32)
        requires
            old(store).wf(),
        ensures
            final(store).wf(),
            final(store)@ == old(store)@.insert(self@, uint32_le_bytes(val)),
    {
        let mut bytes: Vec<u8> = Vec::new();
        bytes.push((val & 0xff) as u8);
        bytes.push(((val >> 8) & 0xff) as u8);
        bytes.push(((val >> 16) & 0xff) as u8);
        bytes.push(((val >> 24) & 0xff) as u8);
        proof {
            assert(bytes@ =~= uint32_le_bytes(val));
        }
        self.proxy.set(store, bytes.as_slice());
    }

    /// The decimal text of the field's value.
    pub fn to_string(&self, store: &KvStore) -> (r: String)
        requires
            store.wf(),
            uint32_wf_at(store@, self@),
        ensures
            r@ == dec_chars(uint32_at(store@, self@) as nat),
    {
        u64_to_string(self.value(store) as u64)
    }

    /// The field's value; a key never written reads as zero.
    pub fn value(&self, store: &KvStore) -> (r: u32)
        requires
            store.wf(),
            uint32_wf_at(store@, self@),
        ensures
            r == uint32_at(store@, self@),
    {
        let bytes = self.proxy.get(store);
        if bytes.len() == 0 {
            0
        } else {
            bytes[0] as u32 + (bytes[1] as u32) * 0x100 + (bytes[2] as u32) * 0x10000 + (
            bytes[3] as u32) * 0x1000000
        }
    }
}

/// Writing then reading a 32-bit field gives back the value written,
/// for every store state, key and value.
pub proof fn lemma_uint32_write_read(m: Map<Seq<char>, Seq<u8>>, k: Seq<char>, x: u32)
    ensures
        uint32_wf_at(m.insert(k, uint32_le_bytes(x)), k),
        uint32_at(m.insert(k, uint32_le_bytes(x)), k) == x,
{
    assert((((x & 0xff) as u8) as u32 + ((((x >> 8u32) & 0xff) as u8) as u32) * 0x100 + ((((x
        >> 16u32) & 0xff) as u8) as u32) * 0x10000 + ((((x >> 24u32) & 0xff) as u8) as u32)
        * 0x1000000) as u32 == x) by (bit_vector);
}

} // verus!
