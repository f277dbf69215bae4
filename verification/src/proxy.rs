//! Proxy abstraction over a hierarchical key-value space: an in-memory
//! model of the host store, and the lightweight key-path locators that
//! address it. A proxy carries no data of its own; it is cheap to clone
//! and re-derivable at any time.

use vstd::prelude::*;
use vstd::slice::slice_to_vec;
use vstd::string::StringExecFns;

verus! {

/// The key-value space that proxies address. The view is a map from key
/// paths (as character sequences) to stored byte payloads.
pub struct KvStore {
    keys: Vec<String>,
    vals: Vec<Vec<u8>>,
}

impl View for KvStore {
    type V = Map<Seq<char>, Seq<u8>>;

    closed spec fn view(&self) -> Map<Seq<char>, Seq<u8>> {
        Map::new(
            |k: Seq<char>|
                exists|i: int| 0 <= i < self.keys@.len() && (#[trigger] self.keys@[i])@ == k,
            |k: Seq<char>|
                self.vals@[choose|i: int|
                    0 <= i < self.keys@.len() && (#[trigger] self.keys@[i])@ == k]@,
        )
    }
}

impl KvStore {
    /// Keys and values pair up, and no key occurs twice.
    pub closed spec fn wf(&self) -> bool {
        &&& self.keys@.len() == self.vals@.len()
        &&& forall|i: int, j: int|
            0 <= i < j < self.keys@.len() ==> (#[trigger] self.keys@[i])@ != (
            #[trigger] self.keys@[j])@
    }

    /// Constructs an empty store.
    pub fn new() -> (r: KvStore)
        ensures
            r.wf(),
            r@ == Map::<Seq<char>, Seq<u8>>::empty(),
    {
        let r = KvStore { keys: Vec::new(), vals: Vec::new() };
        proof {
            assert(r@ =~= Map::<Seq<char>, Seq<u8>>::empty());
        }
        r
    }

    /// The index at which `key` is stored, if any.
    fn find(&self, key: &String) -> (r: Option<usize>)
        requires
            self.wf(),
        ensures
            match r {
                Some(i) => i < self.keys@.len() && self.keys@[i as int]@ == key@,
                None => forall|i: int|
                    0 <= i < self.keys@.len() ==> (#[trigger] self.keys@[i])@ != key@,
            },
    {
        let mut i: usize = 0;
        while i < self.keys.len()
            invariant
                i <= self.keys@.len(),
                forall|j: int| 0 <= j < i ==> (#[trigger] self.keys@[j])@ != key@,
            decreases self.keys@.len() - i,
        {
            if self.keys[i] == *key {
                return Some(i);
            }
            i = i + 1;
        }
        None
    }

    /// Whether the store holds a value under `key`.
    pub fn has(&self, key: &String) -> (r: bool)
        requires
            self.wf(),
        ensures
            r == self@.contains_key(key@),
    {
        self.find(key).is_some()
    }

    /// The bytes stored under `key`; an absent key reads as the empty
    /// byte sequence.
    pub fn get(&self, key: &String) -> (r: Vec<u8>)
        requires
            self.wf(),
        ensures
            r@ == (if self@.contains_key(key@) {
                self@[key@]
            } else {
                Seq::<u8>::empty()
            }),
    {
        match self.find(key) {
            Some(i) => {
                proof {
                    let j = choose|j: int|
                        0 <= j < self.keys@.len() && (#[trigger] self.keys@[j])@ == key@;
                    assert(j == i as int);
                }
                self.vals[i].clone()
            },
            None => Vec::new(),
        }
    }

    /// Stores `value` under `key`, overwriting any earlier payload.
    pub fn set(&mut self, key: &String, value: &[u8])
        requires
            old(self).wf(),
        ensures
            final(self).wf(),
            final(self)@ == old(self)@.insert(key@, value@),
    {
        match self.find(key) {
            Some(i) => {
                self.vals.set(i, slice_to_vec(value));
                proof {
                    lemma_view_update(old(self), self, key@, value@, i as int);
                }
            },
            None => {
                self.keys.push(key.clone());
                self.vals.push(slice_to_vec(value));
                proof {
                    lemma_view_push(old(self), self, key@, value@);
                }
            },
        }
    }

    /// Removes `key` from the store; removing an absent key changes
    /// nothing.
    pub fn delete(&mut self, key: &String)
        requires
            old(self).wf(),
        ensures
            final(self).wf(),
            final(self)@ == old(self)@.remove(key@),
    {
        match self.find(key) {
            Some(i) => {
                self.keys.remove(i);
                self.vals.remove(i);
                proof {
                    lemma_view_remove(old(self), self, key@, i as int);
                }
            },
            None => {
                proof {
                    assert(final(self)@ =~= old(self)@.remove(key@));
                }
            },
        }
    }
}

proof fn lemma_view_update(pre: &KvStore, post: &KvStore, k: Seq<char>, v: Seq<u8>, i: int)
    requires
        pre.wf(),
        0 <= i < pre.keys@.len(),
        pre.keys@[i]@ == k,
        post.keys@ == pre.keys@,
        post.vals@ == pre.vals@.update(i, post.vals@[i]),
        post.vals@.len() == pre.vals@.len(),
        post.vals@[i]@ == v,
    ensures
        post.wf(),
        post@ == pre@.insert(k, v),
{
    assert forall|k2: Seq<char>| post@.contains_key(k2) == pre@.insert(k, v).contains_key(k2) by {}
    assert forall|k2: Seq<char>| post@.contains_key(k2) implies post@[k2] == pre@.insert(k, v)[k2] by {
        let j = choose|j: int| 0 <= j < post.keys@.len() && (#[trigger] post.keys@[j])@ == k2;
        if k2 == k {
            assert(j == i);
        } else {
            assert(j != i);
        }
    }
    assert(post@ =~= pre@.insert(k, v));
}

proof fn lemma_view_push(pre: &KvStore, post: &KvStore, k: Seq<char>, v: Seq<u8>)
    requires
        pre.wf(),
        forall|i: int| 0 <= i < pre.keys@.len() ==> (#[trigger] pre.keys@[i])@ != k,
        post.keys@.len() == pre.keys@.len() + 1,
        post.keys@ == pre.keys@.push(post.keys@[pre.keys@.len() as int]),
        post.keys@[pre.keys@.len() as int]@ == k,
        post.vals@ == pre.vals@.push(post.vals@[pre.vals@.len() as int]),
        post.vals@.len() == pre.vals@.len() + 1,
        post.vals@[pre.vals@.len() as int]@ == v,
    ensures
        post.wf(),
        post@ == pre@.insert(k, v),
{
    let n = pre.keys@.len() as int;
    assert forall|i: int, j: int| 0 <= i < j < post.keys@.len() implies (#[trigger] post.keys@[i])@
        != (#[trigger] post.keys@[j])@ by {
        if j < n {
            assert(pre.keys@[i]@ != pre.keys@[j]@);
        }
    }
    assert forall|k2: Seq<char>| post@.contains_key(k2) implies post@[k2] == pre@.insert(k, v)[k2] by {
        let j = choose|j: int| 0 <= j < post.keys@.len() && (#[trigger] post.keys@[j])@ == k2;
        if k2 == k {
            assert(j == n);
        } else {
            assert(j < n);
            assert(pre@.contains_key(k2));
            let j2 = choose|j2: int| 0 <= j2 < pre.keys@.len() && (#[trigger] pre.keys@[j2])@ == k2;
            assert(j2 == j);
        }
    }
    assert forall|k2: Seq<char>| pre@.insert(k, v).contains_key(k2) implies post@.contains_key(
        k2,
    ) by {
        if k2 == k {
            assert(post.keys@[n]@ == k2);
        } else {
            let j2 = choose|j2: int| 0 <= j2 < pre.keys@.len() && (#[trigger] pre.keys@[j2])@ == k2;
            assert(post.keys@[j2]@ == k2);
        }
    }
    assert(post@ =~= pre@.insert(k, v));
}

proof fn lemma_view_remove(pre: &KvStore, post: &KvStore, k: Seq<char>, i: int)
    requires
        pre.wf(),
        0 <= i < pre.keys@.len(),
        pre.keys@[i]@ == k,
        post.keys@ == pre.keys@.remove(i),
        post.vals@ == pre.vals@.remove(i),
    ensures
        post.wf(),
        post@ == pre@.remove(k),
{
    let n = pre.keys@.len() as int;
    assert forall|j: int| 0 <= j < post.keys@.len() implies (#[trigger] post.keys@[j]) == (if j < i {
        pre.keys@[j]
    } else {
        pre.keys@[j + 1]
    }) by {}
    assert forall|a: int, b: int| 0 <= a < b < post.keys@.len() implies (#[trigger] post.keys@[a])@
        != (#[trigger] post.keys@[b])@ by {
        let a2 = if a < i {
            a
        } else {
            a + 1
        };
        let b2 = if b < i {
            b
        } else {
            b + 1
        };
        assert(pre.keys@[a2]@ != pre.keys@[b2]@);
    }
    assert forall|k2: Seq<char>| post@.contains_key(k2) implies pre@.remove(k).contains_key(k2)
        && post@[k2] == pre@.remove(k)[k2] by {
        let j = choose|j: int| 0 <= j < post.keys@.len() && (#[trigger] post.keys@[j])@ == k2;
        let j2 = if j < i {
            j
        } else {
            j + 1
        };
        assert(pre.keys@[j2]@ == k2);
        assert(k2 != k);
        let j3 = choose|j3: int| 0 <= j3 < pre.keys@.len() && (#[trigger] pre.keys@[j3])@ == k2;
        assert(j3 == j2);
    }
    assert forall|k2: Seq<char>| pre@.remove(k).contains_key(k2) implies post@.contains_key(k2) by {
        let j2 = choose|j2: int| 0 <= j2 < pre.keys@.len() && (#[trigger] pre.keys@[j2])@ == k2;
        assert(j2 != i);
        let j = if j2 < i {
            j2
        } else {
            j2 - 1
        };
        assert(post.keys@[j]@ == k2);
    }
    assert(post@ =~= pre@.remove(k));
}

/// The bytes the store holds at `k`: a key never written reads as the
/// empty byte sequence.
pub open spec fn bytes_at(m: Map<Seq<char>, Seq<u8>>, k: Seq<char>) -> Seq<u8> {
    if m.contains_key(k) {
        m[k]
    } else {
        Seq::<u8>::empty()
    }
}

/// A lightweight locator for a key path into the key-value space. The
/// view is the full key under which the store is addressed.
pub struct Proxy {
    key: String,
}

impl View for Proxy {
    type V = Seq<char>;

    closed spec fn view(&self) -> Seq<char> {
        self.key@
    }
}

impl Clone for Proxy {
    /// Proxies are value-like: a clone addresses the same key.
    fn clone(&self) -> (r: Self)
        ensures
            r@ == self@,
    {
        Proxy { key: self.key.clone() }
    }
}

/// The key a child proxy addresses: an empty sub-key re-derives the
/// parent's own location; otherwise the sub-key is appended to the
/// parent's path with a `.` separator (none at the top of a namespace).
pub open spec fn child_key(parent: Seq<char>, sub_key: Seq<char>) -> Seq<char> {
    if sub_key.len() == 0 {
        parent
    } else if parent.len() == 0 {
        sub_key
    } else {
        parent + seq!['.'] + sub_key
    }
}

impl Proxy {
    /// Constructs a proxy addressing the top of a namespace.
    pub fn new() -> (r: Proxy)
        ensures
            r@ == Seq::<char>::empty(),
    {
        let r = Proxy { key: String::new() };
        proof {
            assert(r@ =~= Seq::<char>::empty());
        }
        r
    }

    /// Derives a child proxy addressing `sub_key` relative to this one.
    pub fn root(&self, sub_key: &str) -> (r: Proxy)
        ensures
            r@ == child_key(self@, sub_key@),
    {
        if sub_key.unicode_len() == 0 {
            self.clone()
        } else if self.key.unicode_len() == 0 {
            Proxy { key: String::from_str(sub_key) }
        } else {
            proof {
                reveal_strlit(".");
                assert("."@ =~= seq!['.']);
            }
            Proxy { key: self.key.clone().concat(".").concat(sub_key) }
        }
    }

    /// Whether the store holds a value at this proxy's key.
    pub fn has(&self, store: &KvStore) -> (r: bool)
        requires
            store.wf(),
        ensures
            r == store@.contains_key(self@),
    {
        store.has(&self.key)
    }

    /// Fetches the bytes at this proxy's key; an absent key reads as the
    /// empty byte sequence.
    pub fn get(&self, store: &KvStore) -> (r: Vec<u8>)
        requires
            store.wf(),
        ensures
            r@ == (if store@.contains_key(self@) {
                store@[self@]
            } else {
                Seq::<u8>::empty()
            }),
    {
        store.get(&self.key)
    }

    /// Stores bytes at this proxy's key: exactly one full overwrite of
    /// the key's payload.
    pub fn set(&self, store: &mut KvStore, value: &[u8])
        requires
            old(store).wf(),
        ensures
            final(store).wf(),
            final(store)@ == old(store)@.insert(self@, value@),
    {
        store.set(&self.key, value);
    }

    /// Removes this proxy's key from the store.
    pub fn delete(&self, store: &mut KvStore)
        requires
            old(store).wf(),
        ensures
            final(store).wf(),
            final(store)@ == old(store)@.remove(self@),
    {
        store.delete(&self.key);
    }
}

} // verus!
