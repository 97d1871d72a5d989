//! The recency-ordered map that the caching store keeps its payloads in.
//!
//! The map is `lru::LruCache`: a hash map whose entries are also threaded on
//! a list, most recently used at one end. It is made with a capacity, and a
//! new key that arrives when the map is full pushes out the entry that has
//! gone unused the longest.
//!
//! The verifier cannot look inside the map. This module names what it holds,
//! as a sequence of entries from the least to the most recently used, and
//! states how the three calls the store makes act on that sequence. The
//! statements follow the `lru` crate's source; they are believed, not proved.
//!
//! A key is a kind's tag and a hash; a value is a payload. Keys are compared
//! by the tag and the hash's bytes, which is how tuples, integers and
//! `bytes::Bytes` compare and hash.

use crate::buffer::bytes_content;
use bytes::Bytes;
use lru::LruCache;
use vstd::prelude::*;

verus! {

/// `lru::LruCache`: the map itself, opaque to the verifier.
#[verifier::external_type_specification]
#[verifier::external_body]
#[verifier::reject_recursive_types(K)]
#[verifier::reject_recursive_types(V)]
#[verifier::reject_recursive_types(S)]
pub struct ExLruCache<K, V, S>(lru::LruCache<K, V, S>);

/// `lru::DefaultHasher`: the hasher the map is built with when none is given.
/// It is seeded anew in every process; nothing here depends on where it puts
/// a key.
#[verifier::external_type_specification]
#[verifier::external_body]
pub struct ExDefaultHasher(lru::DefaultHasher);

/// The most entries a map may be made for. The map allocates its table when
/// it is made, and the size of a table for more entries than this may not fit
/// the address space of a 32-bit machine.
pub const MAX_CAPACITY: usize = 0x0400_0000;

/// A key as the map compares it: a kind's tag and a hash's bytes.
pub type Key = (u8, Seq<u8>);

/// A run of entries, each a key and a payload.
pub type Entries = Seq<(Key, Seq<u8>)>;

/// The entries of a map, each a key and a payload, from the least recently
/// used to the most recently used.
pub uninterp spec fn cache_entries(cache: LruCache<(u8, Bytes), Bytes>) -> Seq<
    ((u8, Seq<u8>), Seq<u8>),
>;

/// The capacity a map was made with.
pub uninterp spec fn cache_capacity(cache: LruCache<(u8, Bytes), Bytes>) -> nat;

/// A key as the map compares it: the tag and the hash's bytes.
pub open spec fn key_content(key: (u8, Bytes)) -> Key {
    (key.0, bytes_content(key.1))
}

/// Whether some entry has the key `key`.
pub open spec fn holds(entries: Entries, key: Key) -> bool {
    exists|i: int| 0 <= i < entries.len() && (#[trigger] entries[i]).0 == key
}

/// `after` is `before` with the entry at `i` moved to the most recent end,
/// its payload replaced by `value`.
pub open spec fn made_most_recent(
    before: Entries,
    i: int,
    value: Seq<u8>,
    after: Entries,
) -> bool {
    after == before.remove(i).push((before[i].0, value))
}

/// The entries after a key that was not among them has been put: nothing is
/// kept by a map of capacity zero; a full map loses its least recently used
/// entry; the new entry is the most recently used.
pub open spec fn admitted(
    before: Entries,
    capacity: nat,
    key: Key,
    value: Seq<u8>,
) -> Entries {
    if capacity == 0 {
        before
    } else if before.len() == capacity {
        before.remove(0).push((key, value))
    } else {
        before.push((key, value))
    }
}

/// What a lookup of `key` found and did: on a hit, the payload of an entry
/// with that key, which becomes the most recently used; on a miss, nothing.
pub open spec fn looked_up(
    before: Entries,
    key: Key,
    found: Option<Seq<u8>>,
    after: Entries,
) -> bool {
    match found {
        Some(value) => exists|i: int|
            0 <= i < before.len() && (#[trigger] before[i]).0 == key && before[i].1 == value
                && made_most_recent(before, i, value, after),
        None => !holds(before, key) && after == before,
    }
}

/// What putting `value` under `key` did: a key already there keeps its place
/// in the map but becomes the most recently used, and its old payload is
/// handed back; a new key is admitted and nothing is handed back.
pub open spec fn was_put(
    before: Entries,
    capacity: nat,
    key: Key,
    value: Seq<u8>,
    displaced: Option<Seq<u8>>,
    after: Entries,
) -> bool {
    if holds(before, key) {
        exists|i: int|
            0 <= i < before.len() && (#[trigger] before[i]).0 == key && displaced == Some(
                before[i].1,
            ) && made_most_recent(before, i, value, after)
    } else {
        displaced.is_none() && after == admitted(before, capacity, key, value)
    }
}

/// `LruCache::new`: an empty map of the given capacity. The table is
/// allocated at once, so the capacity is bounded.
#[verifier::external_body]
pub(crate) fn cache_new(capacity: usize) -> (cache: LruCache<(u8, Bytes), Bytes>)
    requires
        capacity <= MAX_CAPACITY,
    ensures
        cache_entries(cache) == Entries::empty(),
        cache_capacity(cache) == capacity,
{
    LruCache::new(capacity)
}

/// `LruCache::get`: the payload under `key`, if there is one; the entry found
/// becomes the most recently used. The capacity stays.
#[verifier::external_body]
pub(crate) fn cache_get<'a>(
    cache: &'a mut LruCache<(u8, Bytes), Bytes>,
    key: &(u8, Bytes),
) -> (found: Option<&'a Bytes>)
    ensures
        cache_capacity(*final(cache)) == cache_capacity(*old(cache)),
        looked_up(
            cache_entries(*old(cache)),
            key_content(*key),
            match found {
                Some(value) => Some(bytes_content(*value)),
                None => None,
            },
            cache_entries(*final(cache)),
        ),
{
    cache.get(key)
}

/// `LruCache::put`: `value` is stored under `key` as the most recently used
/// entry; see [`was_put`] for what gives way. The capacity stays.
#[verifier::external_body]
pub(crate) fn cache_put(
    cache: &mut LruCache<(u8, Bytes), Bytes>,
    key: (u8, Bytes),
    value: Bytes,
) -> (displaced: Option<Bytes>)
    ensures
        cache_capacity(*final(cache)) == cache_capacity(*old(cache)),
        was_put(
            cache_entries(*old(cache)),
            cache_capacity(*old(cache)),
            key_content(key),
            bytes_content(value),
            match displaced {
                Some(value) => Some(bytes_content(value)),
                None => None,
            },
            cache_entries(*final(cache)),
        ),
{
    cache.put(key, value)
}

} // verus!
