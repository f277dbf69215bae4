//! The boolean type: stored as a single byte (0 or 1), with the pair of
//! typed accessor wrappers (immutable view, mutable view) over a proxy.

use vstd::prelude::*;

use crate::proxy::KvStore;
use crate::proxy::Proxy;

verus! {

/// Whether the payload stored at `k` (if any) is a well-formed boolean
/// representation: absent, empty, or one byte holding 0 or 1.
pub open spec fn bool_wf_at(m: Map<Seq<char>, Seq<u8>>, k: Seq<char>) -> bool {
    m.contains_key(k) ==> (m[k].len() == 0 || (m[k].len() == 1 && (m[k][0] == 0 || m[k][0] == 1)))
}

/// The boolean the store holds at `k`: a key never written, or one
/// holding the empty payload, reads as the type's zero value, false.
pub open spec fn bool_at(m: Map<Seq<char>, Seq<u8>>, k: Seq<char>) -> bool {
    m.contains_key(k) && m[k].len() == 1 && m[k][0] == 1
}

/// Immutable view of a boolean field in the key-value space. The view
/// is the key the wrapped proxy addresses.
pub struct ScImmutableBool {
    proxy: Proxy,
}

impl View for ScImmutableBool {
    type V = Seq<char>;

    closed spec fn view(&self) -> Seq<char> {
        self.proxy@
    }
}

impl ScImmutableBool {
    /// Wraps a proxy locating the field's storage key; the store is not
    /// touched.
    pub fn new(proxy: Proxy) -> (r: ScImmutableBool)
        ensures
            r@ == proxy@,
    {
        ScImmutableBool { proxy }
    }

    /// Whether the field was ever written; no decoding is performed.
    pub fn has_value(&self, store: &KvStore) -> (r: bool)
        requires
            store.wf(),
        ensures
            r == store@.contains_key(self@),
    {
        self.proxy.has(store)
    }

    /// The field's value as text: `1` for true, `0` for false.
    pub fn to_string(&self, store: &KvStore) -> (r: String)
        requires
            store.wf(),
            bool_wf_at(store@, self@),
        ensures
            r@ == (if bool_at(store@, self@) {
                seq!['1']
            } else {
                seq!['0']
            }),
    {
        bool_to_string(self.value(store))
    }

    /// The field's value; a key never written reads as false.
    pub fn value(&self, store: &KvStore) -> (r: bool)
        requires
            store.wf(),
            bool_wf_at(store@, self@),
        ensures
            r == bool_at(store@, self@),
    {
        let bytes = self.proxy.get(store);
        if bytes.len() == 0 {
            false
        } else {
            bytes[0] == 1
        }
    }
}

/// Mutable view of a boolean field in the key-value space: the immutable
/// operations plus a full-overwrite store and a delete. The view is the
/// key the wrapped proxy addresses.
pub struct ScMutableBool {
    proxy: Proxy,
}

impl View for ScMutableBool {
    type V = Seq<char>;

    closed spec fn view(&self) -> Seq<char> {
        self.proxy@
    }
}

impl ScMutableBool {
    /// Wraps a proxy locating the field's storage key; the store is not
    /// touched.
    pub fn new(proxy: Proxy) -> (r: ScMutableBool)
        ensures
            r@ == proxy@,
    {
        ScMutableBool { proxy }
    }

    /// Discards the write capability: the immutable view of the same key.
    pub fn as_immutable(&self) -> (r: ScImmutableBool)
        ensures
            r@ == self@,
    {
        ScImmutableBool::new(self.proxy.clone())
    }

    /// Removes the field's key from the store; afterwards the field
    /// reads as absent and its value as false.
    pub fn delete(&self, store: &mut KvStore)
        requires
            old(store).wf(),
        ensures
            final(store).wf(),
            final(store)@ == old(store)@.remove(self@),
    {
        self.proxy.delete(store);
    }

    /// Whether the field was ever written; no decoding is performed.
    pub fn has_value(&self, store: &KvStore) -> (r: bool)
        requires
            store.wf(),
        ensures
            r == store@.contains_key(self@),
    {
        self.proxy.has(store)
    }

    /// Writes the field: exactly one full overwrite of the key's payload
    /// with the value's one-byte representation.
    pub fn set_value(&self, store: &mut KvStore, val: bool)
        requires
            old(store).wf(),
        ensures
            final(store).wf(),
            final(store)@ == old(store)@.insert(self@, bool_bytes(val)),
    {
        let mut bytes: Vec<u8> = Vec::new();
        if val {
            bytes.push(1);
        } else {
            bytes.push(0);
        }
        proof {
            assert(bytes@ =~= bool_bytes(val));
        }
        self.proxy.set(store, bytes.as_slice());
    }

    /// The field's value as text: `1` for true, `0` for false.
    pub fn to_string(&self, store: &KvStore) -> (r: String)
        requires
            store.wf(),
            bool_wf_at(store@, self@),
        ensures
            r@ == (if bool_at(store@, self@) {
                seq!['1']
            } else {
                seq!['0']
            }),
    {
        bool_to_string(self.value(store))
    }

    /// The field's value; a key never written reads as false.
    pub fn value(&self, store: &KvStore) -> (r: bool)
        requires
            store.wf(),
            bool_wf_at(store@, self@),
        ensures
            r == bool_at(store@, self@),
    {
        let bytes = self.proxy.get(store);
        if bytes.len() == 0 {
            false
        } else {
            bytes[0] == 1
        }
    }
}

/// Default-on-absence, for every store state, key and value: a key
/// never written is well formed and reads as absent and as false; after
/// a write of `x` the key exists and reads as `x`; after a delete the
/// state reverts to the absent case.
pub proof fn lemma_bool_default_on_absence(m: Map<Seq<char>, Seq<u8>>, k: Seq<char>, x: bool)
    ensures
        !m.contains_key(k) ==> bool_wf_at(m, k) && !bool_at(m, k),
        m.insert(k, bool_bytes(x)).contains_key(k),
        bool_wf_at(m.insert(k, bool_bytes(x)), k),
        bool_at(m.insert(k, bool_bytes(x)), k) == x,
        !m.insert(k, bool_bytes(x)).remove(k).contains_key(k),
        !bool_at(m.insert(k, bool_bytes(x)).remove(k), k),
{
}

/// The one-byte stored representation of a boolean value.
pub open spec fn bool_bytes(v: bool) -> Seq<u8> {
    seq![
        if v {
            1u8
        } else {
            0u8
        },
    ]
}

/// The text of a boolean value: `1` for true, `0` for false.
pub fn bool_to_string(value: bool) -> (r: String)
    ensures
        r@ == (if value {
            seq!['1']
        } else {
            seq!['0']
        }),
{
    proof {
        reveal_strlit("1");
        reveal_strlit("0");
        assert("1"@ =~= seq!['1']);
        assert("0"@ =~= seq!['0']);
    }
    if value {
        "1".to_owned()
    } else {
        "0".to_owned()
    }
}

} // verus!
