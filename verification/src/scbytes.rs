//! The opaque byte-string type: stored as its raw byte representation (its structure
//! beyond the codec contract belongs to the host), with the pair of
//! typed accessor wrappers (immutable view, mutable view) over a proxy.

use vstd::prelude::*;

use crate::codec::hex_chars;
use crate::codec::hex_encode;
use crate::proxy::bytes_at;
use crate::proxy::KvStore;
use crate::proxy::Proxy;

verus! {

/// Immutable view of a byte-string field in the key-value space. The view
/// is the key the wrapped proxy addresses.
pub struct ScImmutableBytes {
    proxy: Proxy,
}

impl View for ScImmutableBytes {
    type V = Seq<char>;

    closed spec fn view(&self) -> Seq<char> {
        self.proxy@
    }
}

impl ScImmutableBytes {
    /// Wraps a proxy locating the field's storage key; the store is not
    /// touched.
    pub fn new(proxy: Proxy) -> (r: ScImmutableBytes)
        ensures
            r@ == proxy@,
    {
        ScImmutableBytes { proxy }
    }

    /// Whether the field was ever written; no decoding is performed.
    pub fn has_value(&self, store: &KvStore) -> (r: bool)
        requires
            store.wf(),
        ensures
            r == store@.contains_key(self@),
    {
        self.proxy.has(store)
    }

    /// The hex text of the field's bytes.
    pub fn to_string(&self, store: &KvStore) -> (r: String)
        requires
            store.wf(),
        ensures
            r@ == hex_chars(bytes_at(store@, self@)),
    {
        let bytes = self.value(store);
        hex_encode(bytes.as_slice())
    }

    /// The field's bytes; a key never written reads as the type's
    /// default, the empty byte sequence.
    pub fn value(&self, store: &KvStore) -> (r: Vec<u8>)
        requires
            store.wf(),
        ensures
            r@ == bytes_at(store@, self@),
    {
        self.proxy.get(store)
    }
}

/// Mutable view of a byte-string field in the key-value space: the immutable
/// operations plus a full-overwrite store and a delete. The view is the
/// key the wrapped proxy addresses.
pub struct ScMutableBytes {
    proxy: Proxy,
}

impl View for ScMutableBytes {
    type V = Seq<char>;

    closed spec fn view(&self) -> Seq<char> {
        self.proxy@
    }
}

impl ScMutableBytes {
    /// Wraps a proxy locating the field's storage key; the store is not
    /// touched.
    pub fn new(proxy: Proxy) -> (r: ScMutableBytes)
        ensures
            r@ == proxy@,
    {
        ScMutableBytes { proxy }
    }

    /// Discards the write capability: the immutable view of the same key.
    pub fn as_immutable(&self) -> (r: ScImmutableBytes)
        ensures
            r@ == self@,
    {
        ScImmutableBytes::new(self.proxy.clone())
    }

    /// Removes the field's key from the store; afterwards the field
    /// reads as absent and its value as the empty byte sequence.
    pub fn delete(&self, store: &mut KvStore)
        requires
            old(store).wf(),
        ensures
            final(store).wf(),
            final(store)@ == old(store)@.remove(self@),
    {
        self.proxy.delete(store);
    }

    /// Whether the field was ever written; no decoding is performed.
    pub fn has_value(&self, store: &KvStore) -> (r: bool)
        requires
            store.wf(),
        ensures
            r == store@.contains_key(self@),
    {
        self.proxy.has(store)
    }

    /// Writes the field: exactly one full overwrite of the key's payload.
    pub fn set_value(&self, store: &mut KvStore, val: &[u8])
        requires
            old(store).wf(),
        ensures
            final(store).wf(),
            final(store)@ == old(store)@.insert(self@, val@),
    {
        self.proxy.set(store, val);
    }

    /// The hex text of the field's bytes.
    pub fn to_string(&self, store: &KvStore) -> (r: String)
        requires
            store.wf(),
        ensures
            r@ == hex_chars(bytes_at(store@, self@)),
    {
        let bytes = self.value(store);
        hex_encode(bytes.as_slice())
    }

    /// The field's bytes; a key never written reads as the type's
    /// default, the empty byte sequence.
    pub fn value(&self, store: &KvStore) -> (r: Vec<u8>)
        requires
            store.wf(),
        ensures
            r@ == bytes_at(store@, self@),
    {
        self.proxy.get(store)
    }
}

/// Default-on-absence, for every store state, key and payload: a key
/// never written reads as absent and as the empty byte sequence; after
/// a write of `v` the key exists and reads as `v`; after a delete the
/// state reverts to the absent case.
pub proof fn lemma_bytes_default_on_absence(m: Map<Seq<char>, Seq<u8>>, k: Seq<char>, v: Seq<u8>)
    ensures
        !m.contains_key(k) ==> bytes_at(m, k) == Seq::<u8>::empty(),
        m.insert(k, v).contains_key(k),
        bytes_at(m.insert(k, v), k) == v,
        !m.insert(k, v).remove(k).contains_key(k),
        bytes_at(m.insert(k, v).remove(k), k) == Seq::<u8>::empty(),
{
}

} // verus!
