//! The per-request extension store: a typed cache holding at most one
//! value per key, where a key stands for the cached value's type. Values
//! arrive by explicit publication (captured route parameters) or by lazy
//! initialization; concurrent first accesses may both initialize and both
//! publish, and the store keeps whichever lands last. The embedding
//! application holds the store behind a short-held lock and never holds
//! that lock across an initializer call, so an initializer may re-enter
//! the store for its own dependencies.

use vstd::prelude::*;

verus! {

/// What the entry list denotes: a map in which later entries win.
pub open spec fn store_map<V>(s: Seq<(u64, V)>) -> Map<u64, V>
    decreases s.len(),
{
    if s.len() == 0 {
        Map::empty()
    } else {
        store_map(s.drop_last()).insert(s.last().0, s.last().1)
    }
}

/// The value most recently published under `key`, if any.
pub open spec fn store_lookup<V>(s: Seq<(u64, V)>, key: u64) -> Option<V>
    decreases s.len(),
{
    if s.len() == 0 {
        None
    } else if s.last().0 == key {
        Some(s.last().1)
    } else {
        store_lookup(s.drop_last(), key)
    }
}

/// Law: the most recently published value is the map view's value.
pub proof fn lemma_store_lookup_is_map_lookup<V>(s: Seq<(u64, V)>, key: u64)
    ensures
        store_lookup(s, key) is Some <==> store_map(s).contains_key(key),
        store_lookup(s, key) is Some ==> store_map(s)[key] == store_lookup(s, key)->Some_0,
    decreases s.len(),
{
    if s.len() > 0 {
        lemma_store_lookup_is_map_lookup(s.drop_last(), key);
    }
}

/// A per-request typed cache: at most one value per key, the last
/// publication winning.
pub struct ExtensionStore<V> {
    pub entries: Vec<(u64, V)>,
}

impl<V> View for ExtensionStore<V> {
    type V = Map<u64, V>;

    open spec fn view(&self) -> Map<u64, V> {
        store_map(self.entries@)
    }
}

impl<V> ExtensionStore<V> {
    /// An empty store.
    pub fn new() -> (r: ExtensionStore<V>)
        ensures
            r@ == Map::<u64, V>::empty(),
    {
        ExtensionStore { entries: Vec::new() }
    }

    /// The value cached under `key`, if one is there: the short-held-lock
    /// read of a lazy extraction.
    pub fn get(&self, key: u64) -> (r: Option<&V>)
        ensures
            match r {
                Some(v) => self@.contains_key(key) && *v == self@[key],
                None => !self@.contains_key(key),
            },
    {
        let ghost s = self.entries@;
        let mut i: usize = self.entries.len();
        proof {
            assert(s.take(i as int) =~= s);
        }
        while i > 0
            invariant
                s == self.entries@,
                i <= s.len(),
                store_lookup(s, key) == store_lookup(s.take(i as int), key),
            decreases i,
        {
            i = i - 1;
            proof {
                assert(s.take(i + 1).drop_last() =~= s.take(i as int));
                assert(s.take(i + 1).last() == s[i as int]);
            }
            if self.entries[i].0 == key {
                proof {
                    lemma_store_lookup_is_map_lookup(s, key);
                }
                return Some(&self.entries[i].1);
            }
        }
        proof {
            assert(s.take(0) =~= Seq::<(u64, V)>::empty());
            lemma_store_lookup_is_map_lookup(s, key);
        }
        None
    }

    /// Publishes a value under `key`, replacing any earlier one: the
    /// re-acquired-lock insert that ends a lazy initialization. When two
    /// racing initializations publish, the later call wins.
    pub fn insert(&mut self, key: u64, value: V)
        ensures
            final(self)@ == old(self)@.insert(key, value),
    {
        self.entries.push((key, value));
        proof {
            assert(self.entries@.drop_last() =~= old(self).entries@);
        }
    }
}

/// The error for extracting an extension type that nothing published:
/// status 500, naming the type that was asked for.
pub fn unregistered_extension_error(name_of_type: &str) -> (r: crate::error::HttpError)
    ensures
        r.status == 500,
        r.message@ == "Trying to obtain unregistered extension "@ + name_of_type@,
{
    let mut message = "Trying to obtain unregistered extension ".to_owned();
    message.append(name_of_type);
    crate::error::HttpError { message, status: 500 }
}

/// Law: after an initializer for one extension lazily initialized and
/// published a second one and then published its own value, both are
/// cached, each under its own key.
pub proof fn lemma_nested_init_both_cached<V>(s: Map<u64, V>, kx: u64, ky: u64, vx: V, vy: V)
    requires
        kx != ky,
    ensures
        s.insert(ky, vy).insert(kx, vx).contains_key(kx),
        s.insert(ky, vy).insert(kx, vx).contains_key(ky),
        s.insert(ky, vy).insert(kx, vx)[kx] == vx,
        s.insert(ky, vy).insert(kx, vx)[ky] == vy,
{
}

} // verus!
