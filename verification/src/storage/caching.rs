//! A store that remembers what another store has answered.
//!
//! [`LruStorage`] stands in front of one inner store and keeps, up to a fixed
//! number of entries, the payloads that store has returned, keyed by kind and
//! hash. A read that finds its key is answered from memory and makes the entry
//! the most recently used. A read that does not find it goes to the inner
//! store; a payload that comes back is remembered, at the cost of the least
//! recently used entry if there is no room, while "no such object" and errors
//! are passed on and never remembered.
//!
//! The cache is described by a sequence of entries, least recently used
//! first. Every operation says exactly which sequence it leaves behind.

use crate::buffer::bytes_content;
use crate::recency::{
    admitted, cache_capacity, cache_entries, cache_get, cache_new, cache_put, holds, Entries, Key,
    MAX_CAPACITY,
};
use crate::storage::{ObjectKind, StorageReadError};
use bytes::Bytes;
use lru::LruCache;
use vstd::prelude::*;

verus! {

/// The key an object is cached under: its kind's tag and its hash.
pub open spec fn cache_key(kind: ObjectKind, hash: Seq<u8>) -> Key {
    (kind.spec_tag(), hash)
}

/// No key occurs twice.
pub open spec fn distinct_keys(entries: Entries) -> bool {
    forall|i: int, j: int|
        0 <= i < j < entries.len() ==> (#[trigger] entries[i]).0 != (#[trigger] entries[j]).0
}

/// What a cache of the given capacity may hold: no key twice, and no more
/// entries than the capacity.
pub open spec fn well_formed(entries: Entries, capacity: nat) -> bool {
    distinct_keys(entries) && entries.len() <= capacity
}

/// Where the entry for `key` stands, for a key that is held.
pub open spec fn position(entries: Entries, key: Key) -> int {
    choose|i: int| 0 <= i < entries.len() && (#[trigger] entries[i]).0 == key
}

/// The payload cached under `key`, if there is one.
pub open spec fn cached(entries: Entries, key: Key) -> Option<
    Seq<u8>,
> {
    if holds(entries, key) {
        Some(entries[position(entries, key)].1)
    } else {
        None
    }
}

/// The entries after `key` has been looked up: a key that is held becomes
/// the most recently used; otherwise nothing moves.
pub open spec fn touched(entries: Entries, key: Key) -> Entries {
    if holds(entries, key) {
        let i = position(entries, key);
        entries.remove(i).push(entries[i])
    } else {
        entries
    }
}

/// The entries after `value` has been stored under `key`: a key that is held
/// gets the new payload and becomes the most recently used; a new key is
/// admitted, pushing out the least recently used entry of a full cache.
pub open spec fn stored(
    entries: Entries,
    capacity: nat,
    key: Key,
    value: Seq<u8>,
) -> Entries {
    if holds(entries, key) {
        entries.remove(position(entries, key)).push((key, value))
    } else {
        admitted(entries, capacity, key, value)
    }
}

/// The payload in an answer, if the answer has one.
pub open spec fn payload_of<E>(answer: Result<Option<Bytes>, StorageReadError<E>>) -> Option<
    Seq<u8>,
> {
    match answer {
        Ok(Some(payload)) => Some(bytes_content(payload)),
        _ => None,
    }
}

/// The entries after the inner store's answer has been taken in: a payload
/// is stored, anything else leaves the cache as it was.
pub open spec fn settled(
    entries: Entries,
    capacity: nat,
    key: Key,
    fetched: Option<Seq<u8>>,
) -> Entries {
    match fetched {
        Some(value) => stored(entries, capacity, key, value),
        None => entries,
    }
}

/// Whether a read of `key` has to ask the inner store.
pub open spec fn asks_inner(entries: Entries, key: Key) -> bool {
    !holds(entries, key)
}

/// The payload a read of `key` returns, where `fetched` is the payload the
/// inner store would answer with if asked.
pub open spec fn read_payload(
    entries: Entries,
    key: Key,
    fetched: Option<Seq<u8>>,
) -> Option<Seq<u8>> {
    if asks_inner(entries, key) {
        fetched
    } else {
        cached(entries, key)
    }
}

/// The entries a read of `key` leaves behind, where `fetched` is the payload
/// the inner store would answer with if asked.
pub open spec fn read_entries(
    entries: Entries,
    capacity: nat,
    key: Key,
    fetched: Option<Seq<u8>>,
) -> Entries {
    if asks_inner(entries, key) {
        settled(entries, capacity, key, fetched)
    } else {
        touched(entries, key)
    }
}

/// Among distinct keys, the entry with a given key is the only one.
pub proof fn lemma_position_unique(
    entries: Entries,
    key: Key,
    i: int,
)
    requires
        distinct_keys(entries),
        0 <= i < entries.len(),
        entries[i].0 == key,
    ensures
        holds(entries, key),
        position(entries, key) == i,
        cached(entries, key) == Some(entries[i].1),
{
    let p = position(entries, key);
    if p < i {
        assert(entries[p].0 != entries[i].0);
    } else if i < p {
        assert(entries[i].0 != entries[p].0);
    }
}

/// Moving an entry to the most recent end, with whatever payload, keeps the
/// keys distinct and the length the same.
pub proof fn lemma_move_keeps_form(
    entries: Entries,
    capacity: nat,
    i: int,
    value: Seq<u8>,
)
    requires
        well_formed(entries, capacity),
        0 <= i < entries.len(),
    ensures
        well_formed(entries.remove(i).push((entries[i].0, value)), capacity),
{
    let after = entries.remove(i).push((entries[i].0, value));
    assert forall|a: int, b: int| 0 <= a < b < after.len() implies (#[trigger] after[a]).0 != (
    #[trigger] after[b]).0 by {
        let source_a = if a < i { a } else { a + 1 };
        assert(after[a] == entries[source_a]);
        if b < after.len() - 1 {
            let source_b = if b < i { b } else { b + 1 };
            assert(after[b] == entries[source_b]);
            assert(entries[source_a].0 != entries[source_b].0);
        } else {
            if source_a < i {
                assert(entries[source_a].0 != entries[i].0);
            } else {
                assert(entries[i].0 != entries[source_a].0);
            }
        }
    }
}

/// Admitting a key that is not held keeps the keys distinct and the cache
/// within its capacity.
pub proof fn lemma_admit_keeps_form(
    entries: Entries,
    capacity: nat,
    key: Key,
    value: Seq<u8>,
)
    requires
        well_formed(entries, capacity),
        !holds(entries, key),
    ensures
        well_formed(admitted(entries, capacity, key, value), capacity),
{
    let after = admitted(entries, capacity, key, value);
    if capacity == 0 {
    } else {
        let shift: int = if entries.len() == capacity { 1 } else { 0 };
        assert forall|a: int, b: int| 0 <= a < b < after.len() implies (#[trigger] after[a]).0
            != (#[trigger] after[b]).0 by {
            assert(after[a] == entries[a + shift]);
            if b < after.len() - 1 {
                assert(after[b] == entries[b + shift]);
                assert(entries[a + shift].0 != entries[b + shift].0);
            } else {
                assert(after[b].0 == key);
            }
        }
    }
}

/// Looking a key up leaves a well-formed cache well-formed.
pub proof fn lemma_touched_keeps_form(
    entries: Entries,
    capacity: nat,
    key: Key,
)
    requires
        well_formed(entries, capacity),
    ensures
        well_formed(touched(entries, key), capacity),
{
    if holds(entries, key) {
        let i = position(entries, key);
        lemma_move_keeps_form(entries, capacity, i, entries[i].1);
    }
}

/// Storing a payload leaves a well-formed cache well-formed.
pub proof fn lemma_stored_keeps_form(
    entries: Entries,
    capacity: nat,
    key: Key,
    value: Seq<u8>,
)
    requires
        well_formed(entries, capacity),
    ensures
        well_formed(stored(entries, capacity, key, value), capacity),
{
    if holds(entries, key) {
        let i = position(entries, key);
        lemma_move_keeps_form(entries, capacity, i, value);
    } else {
        lemma_admit_keeps_form(entries, capacity, key, value);
    }
}

/// A store decorated with a cache of what it has answered.
pub struct LruStorage<S> {
    storage: S,
    cache: LruCache<(u8, Bytes), Bytes>,
}

impl<S> LruStorage<S> {
    /// The inner store.
    pub closed spec fn inner(&self) -> S {
        self.storage
    }

    /// The cached entries, least recently used first.
    pub closed spec fn entries(&self) -> Entries {
        cache_entries(self.cache)
    }

    /// The most entries the cache holds.
    pub closed spec fn capacity(&self) -> nat {
        cache_capacity(self.cache)
    }

    /// The cache holds no key twice and no more entries than its capacity.
    pub open spec fn wf(&self) -> bool {
        well_formed(self.entries(), self.capacity())
    }

    /// Decorates `storage` with an empty cache of at most `capacity` entries.
    pub fn new(storage: S, capacity: usize) -> (cached: LruStorage<S>)
        requires
            capacity <= MAX_CAPACITY,
        ensures
            cached.wf(),
            cached.inner() == storage,
            cached.capacity() == capacity,
            cached.entries() == Entries::empty(),
    {
        LruStorage { storage, cache: cache_new(capacity) }
    }

    /// The inner store.
    pub fn storage(&self) -> (storage: &S)
        ensures
            *storage == self.inner(),
    {
        &self.storage
    }

    /// Looks `hash` up under `kind`. A payload that is cached is handed out,
    /// as another handle on the same bytes, and its entry becomes the most
    /// recently used; otherwise the cache is left as it was.
    pub fn lookup(&mut self, kind: ObjectKind, hash: &crate::hash::Hash) -> (hit: Option<Bytes>)
        requires
            old(self).wf(),
        ensures
            final(self).wf(),
            final(self).inner() == old(self).inner(),
            final(self).capacity() == old(self).capacity(),
            final(self).entries() == touched(old(self).entries(), cache_key(kind, hash@)),
            match hit {
                Some(payload) => Some(bytes_content(payload)),
                None => None,
            } == cached(old(self).entries(), cache_key(kind, hash@)),
    {
        let key = (kind.tag(), hash.0.clone());
        let ghost before = self.entries();
        let ghost capacity = self.capacity();
        let hit = match cache_get(&mut self.cache, &key) {
            Some(payload) => Some(payload.clone()),
            None => None,
        };
        proof {
            let k = cache_key(kind, hash@);
            match &hit {
                Some(payload) => {
                    let payload = *payload;
                    let i = choose|i: int|
                        0 <= i < before.len() && (#[trigger] before[i]).0 == k && before[i].1
                            == bytes_content(payload) && self.entries() == before.remove(i).push(
                            (before[i].0, bytes_content(payload)),
                        );
                    lemma_position_unique(before, k, i);
                    lemma_touched_keeps_form(before, capacity, k);
                },
                None => {},
            }
        }
        hit
    }

    /// Takes in what the inner store answered to a read of `hash` under
    /// `kind`, and passes the answer on unchanged. A payload is cached under
    /// the key; "no such object" and errors leave the cache as it was.
    pub fn settle<E>(
        &mut self,
        kind: ObjectKind,
        hash: &crate::hash::Hash,
        answer: Result<Option<Bytes>, StorageReadError<E>>,
    ) -> (outcome: Result<Option<Bytes>, StorageReadError<E>>)
        requires
            old(self).wf(),
        ensures
            final(self).wf(),
            final(self).inner() == old(self).inner(),
            final(self).capacity() == old(self).capacity(),
            final(self).entries() == settled(
                old(self).entries(),
                old(self).capacity(),
                cache_key(kind, hash@),
                payload_of(answer),
            ),
            outcome == answer,
    {
        match answer {
            Ok(Some(payload)) => {
                let key = (kind.tag(), hash.0.clone());
                let ghost before = self.entries();
                let ghost capacity = self.capacity();
                let displaced = cache_put(&mut self.cache, key, payload.clone());
                proof {
                    let k = cache_key(kind, hash@);
                    if holds(before, k) {
                        let i = choose|i: int|
                            0 <= i < before.len() && (#[trigger] before[i]).0 == k
                                && self.entries() == before.remove(i).push(
                                (before[i].0, bytes_content(payload)),
                            );
                        lemma_position_unique(before, k, i);
                    }
                    lemma_stored_keeps_form(before, capacity, k, bytes_content(payload));
                }
                Ok(Some(payload))
            },
            other => other,
        }
    }

    /// Reads `hash` under `kind` through the cache, asking the inner store by
    /// calling `fetch` on it if, and only if, the key is not cached.
    ///
    /// On a hit the cached payload is returned and `fetch` is not called. On a
    /// miss the result is whatever `fetch` returned, and the cache takes it in
    /// as [`LruStorage::settle`] says.
    pub fn get_with<E, F>(
        &mut self,
        kind: ObjectKind,
        hash: &crate::hash::Hash,
        fetch: F,
    ) -> (outcome: Result<Option<Bytes>, StorageReadError<E>>) where
        F: FnOnce(&S) -> Result<Option<Bytes>, StorageReadError<E>>,
        requires
            old(self).wf(),
            asks_inner(old(self).entries(), cache_key(kind, hash@)) ==> fetch.requires(
                (&old(self).inner(),),
            ),
        ensures
            final(self).wf(),
            final(self).inner() == old(self).inner(),
            final(self).capacity() == old(self).capacity(),
            final(self).entries() == read_entries(
                old(self).entries(),
                old(self).capacity(),
                cache_key(kind, hash@),
                payload_of(outcome),
            ),
            match cached(old(self).entries(), cache_key(kind, hash@)) {
                Some(value) => payload_of(outcome) == Some(value),
                None => fetch.ensures((&old(self).inner(),), outcome),
            },
    {
        match self.lookup(kind, hash) {
            Some(payload) => Ok(Some(payload)),
            None => {
                let answer = fetch(&self.storage);
                self.settle(kind, hash, answer)
            },
        }
    }
}

/// The entries of a cache that started empty and has served reads of
/// `keys[0]`, ..., `keys[n - 1]` in turn, the inner store answering the read
/// of `keys[i]` with the payload `values[i]`.
pub open spec fn after_reads(
    capacity: nat,
    keys: Seq<Key>,
    values: Seq<Seq<u8>>,
    n: nat,
) -> Entries
    decreases n,
{
    if n == 0 {
        Seq::empty()
    } else {
        read_entries(
            after_reads(capacity, keys, values, (n - 1) as nat),
            capacity,
            keys[n - 1],
            Some(values[n - 1]),
        )
    }
}

/// The keys and payloads at places `from` to `to - 1`, paired up.
pub open spec fn window(keys: Seq<Key>, values: Seq<Seq<u8>>, from: int, to: int) -> Entries {
    Seq::new((to - from) as nat, |i: int| (keys[from + i], values[from + i]))
}

/// Kinds are namespaces of their own: two objects share a cache key only if
/// they are of the same kind and have the same hash.
pub proof fn lemma_keys_keep_kinds_apart(
    kind: ObjectKind,
    hash: Seq<u8>,
    other_kind: ObjectKind,
    other_hash: Seq<u8>,
)
    ensures
        cache_key(kind, hash) == cache_key(other_kind, other_hash) <==> kind == other_kind && hash
            == other_hash,
{
}

/// A cache with nothing stored is transparent: every read asks the inner
/// store, and returns the payload, or the lack of one, that the inner store
/// answered with. (That the answer itself is passed on unchanged, errors
/// included, is what [`LruStorage::settle`] and [`LruStorage::get_with`]
/// ensure.)
pub proof fn lemma_empty_cache_is_transparent(
    capacity: nat,
    key: Key,
    fetched: Option<Seq<u8>>,
)
    ensures
        asks_inner(Seq::empty(), key),
        read_payload(Seq::empty(), key, fetched) == fetched,
        read_entries(Seq::empty(), capacity, key, fetched) == settled(
            Seq::empty(),
            capacity,
            key,
            fetched,
        ),
{
}

/// Payloads are memoized: once a read of a key has returned a payload, the
/// next read of that key returns the same payload without asking the inner
/// store, whatever the inner store would answer by then. A cache of capacity
/// zero remembers nothing, so the capacity must be at least one.
pub proof fn lemma_memoized(
    entries: Entries,
    capacity: nat,
    key: Key,
    fetched: Option<Seq<u8>>,
    later: Option<Seq<u8>>,
)
    requires
        well_formed(entries, capacity),
        capacity >= 1,
        read_payload(entries, key, fetched).is_some(),
    ensures
        !asks_inner(read_entries(entries, capacity, key, fetched), key),
        read_payload(read_entries(entries, capacity, key, fetched), key, later) == read_payload(
            entries,
            key,
            fetched,
        ),
{
    let after = read_entries(entries, capacity, key, fetched);
    if asks_inner(entries, key) {
        let value = fetched.unwrap();
        lemma_admit_keeps_form(entries, capacity, key, value);
        assert(after[after.len() - 1] == (key, value));
        lemma_position_unique(after, key, after.len() - 1);
    } else {
        let i = position(entries, key);
        lemma_touched_keeps_form(entries, capacity, key);
        assert(after[after.len() - 1] == entries[i]);
        lemma_position_unique(after, key, after.len() - 1);
    }
}

/// Misses and errors are not cached: when the inner store answers a read
/// with anything but a payload, the cache is left as it was, so the next read
/// of the same key asks the inner store again.
pub proof fn lemma_miss_is_not_cached<E>(
    entries: Entries,
    capacity: nat,
    key: Key,
    answer: Result<Option<Bytes>, StorageReadError<E>>,
)
    requires
        asks_inner(entries, key),
        answer is Err || answer == Ok::<Option<Bytes>, StorageReadError<E>>(None),
    ensures
        payload_of(answer).is_none(),
        read_payload(entries, key, payload_of(answer)).is_none(),
        read_entries(entries, capacity, key, payload_of(answer)) == entries,
        asks_inner(read_entries(entries, capacity, key, payload_of(answer)), key),
{
}

/// Reads of distinct keys, each answered with a payload, fill an empty cache
/// in order; once it is full, each new key pushes out the oldest. After `n`
/// such reads the cache holds the last `capacity` of them, oldest first.
pub proof fn lemma_after_distinct_reads(
    capacity: nat,
    keys: Seq<Key>,
    values: Seq<Seq<u8>>,
    n: nat,
)
    requires
        n <= keys.len(),
        keys.no_duplicates(),
    ensures
        after_reads(capacity, keys, values, n) == window(
            keys,
            values,
            if n > capacity {
                n - capacity
            } else {
                0
            },
            n as int,
        ),
    decreases n,
{
    let from: int = if n > capacity { n - capacity } else { 0 };
    if n == 0 {
        assert(after_reads(capacity, keys, values, n) =~= window(keys, values, from, n as int));
    } else {
        let m = (n - 1) as nat;
        let earlier: int = if m > capacity { m - capacity } else { 0 };
        lemma_after_distinct_reads(capacity, keys, values, m);
        let before = after_reads(capacity, keys, values, m);
        assert(before == window(keys, values, earlier, m as int));
        assert(!holds(before, keys[n - 1])) by {
            if holds(before, keys[n - 1]) {
                let i = position(before, keys[n - 1]);
                assert(before[i].0 == keys[earlier + i]);
                assert(keys[earlier + i] != keys[n - 1]);
            }
        }
        assert(after_reads(capacity, keys, values, n) =~= window(keys, values, from, n as int));
    }
}

/// Eviction goes by recency: after reads of `capacity + 1` distinct keys
/// through a cache that started empty, the first key has been pushed out, so
/// a read of it asks the inner store again, while every later key is still
/// served from the cache with the payload it was read with.
pub proof fn lemma_eviction_order(capacity: nat, keys: Seq<Key>, values: Seq<Seq<u8>>)
    requires
        keys.len() == capacity + 1,
        keys.no_duplicates(),
    ensures
        asks_inner(after_reads(capacity, keys, values, keys.len()), keys[0]),
        forall|i: int|
            1 <= i < keys.len() ==> #[trigger] cached(
                after_reads(capacity, keys, values, keys.len()),
                keys[i],
            ) == Some(values[i]),
{
    let after = after_reads(capacity, keys, values, keys.len());
    lemma_after_distinct_reads(capacity, keys, values, keys.len());
    assert(after == window(keys, values, 1, keys.len() as int));
    assert(distinct_keys(after)) by {
        assert forall|a: int, b: int| 0 <= a < b < after.len() implies (#[trigger] after[a]).0 != (
        #[trigger] after[b]).0 by {
            assert(keys[1 + a] != keys[1 + b]);
        }
    }
    assert(!holds(after, keys[0])) by {
        if holds(after, keys[0]) {
            let i = position(after, keys[0]);
            assert(after[i].0 == keys[1 + i]);
            assert(keys[1 + i] != keys[0]);
        }
    }
    assert forall|i: int| 1 <= i < keys.len() implies #[trigger] cached(after, keys[i]) == Some(
        values[i],
    ) by {
        assert(after[i - 1] == (keys[i], values[i]));
        lemma_position_unique(after, keys[i], i - 1);
    }
}

} // verus!
