//! Expiring caches: an identifier remembered under a key, together with the time at which it
//! was written. An entry is visible for as long as it is no older than the cache's lifespan.
//!
//! The entries live in the unbounded store of the `cached` crate. The store itself knows no
//! time; freshness is decided here, against a clock reading that the caller hands in.

use cached::Cached;
use cached::UnboundCache;
use std::collections::hash_map::RandomState;
use vstd::prelude::*;

verus! {

/// The unbounded store of the `cached` crate, opaque to the verifier.
#[verifier::external_type_specification]
#[verifier::external_body]
#[verifier::reject_recursive_types(K)]
#[verifier::reject_recursive_types(V)]
#[verifier::reject_recursive_types(S)]
pub struct ExUnboundCache<K, V, S>(UnboundCache<K, V, S>);

/// The key/value pairs that a store holds. Each value is an identifier paired with the time
/// at which it was written.
pub uninterp spec fn stored(c: UnboundCache<u64, (u64, u64), RandomState>) -> Map<u64, (u64, u64)>;

/// The contents of a store that holds nothing.
pub open spec fn nothing_stored() -> Map<u64, (u64, u64)> {
    Map::empty()
}

/// What a store answers when asked for `key`.
pub open spec fn held_under(entries: Map<u64, (u64, u64)>, key: u64) -> Option<(u64, u64)> {
    if entries.contains_key(key) {
        Some(entries[key])
    } else {
        None
    }
}

/// `UnboundCache::new`: a store that holds nothing.
#[verifier::external_body]
fn store_new() -> (c: UnboundCache<u64, (u64, u64), RandomState>)
    ensures
        stored(c) == nothing_stored(),
{
    UnboundCache::new()
}

/// `Cached::cache_get` on an `UnboundCache`: the value held under `key`, if any. The
/// contents stay as they were (the call only counts hits and misses).
#[verifier::external_body]
fn store_get(c: &mut UnboundCache<u64, (u64, u64), RandomState>, key: u64) -> (found: Option<
    (u64, u64),
>)
    ensures
        stored(*final(c)) == stored(*old(c)),
        found == held_under(stored(*old(c)), key),
{
    c.cache_get(&key).copied()
}

/// `Cached::cache_set` on an `UnboundCache`: afterwards `key` maps to `value` and every
/// other key is untouched. The value that was replaced, if any, is returned.
#[verifier::external_body]
fn store_set(c: &mut UnboundCache<u64, (u64, u64), RandomState>, key: u64, value: (u64, u64)) -> (previous: Option<
    (u64, u64),
>)
    ensures
        stored(*final(c)) == stored(*old(c)).insert(key, value),
        previous == held_under(stored(*old(c)), key),
{
    c.cache_set(key, value)
}

/// `Cached::cache_remove` on an `UnboundCache`: afterwards `key` is absent and every other
/// key is untouched. The value that was removed, if any, is returned.
#[verifier::external_body]
fn store_remove(c: &mut UnboundCache<u64, (u64, u64), RandomState>, key: u64) -> (previous: Option<
    (u64, u64),
>)
    ensures
        stored(*final(c)) == stored(*old(c)).remove(key),
        previous == held_under(stored(*old(c)), key),
{
    c.cache_remove(&key)
}

/// The mathematical content of an [`ExpiringCache`].
pub struct CacheView {
    /// Key to (identifier, time of writing), expired entries included.
    pub entries: Map<u64, (u64, u64)>,
    /// How long an entry stays visible after it was written.
    pub lifespan: u64,
}

/// An entry written at `written_at` is fresh at `now` when it is no older than `lifespan`.
pub open spec fn is_fresh(written_at: u64, lifespan: u64, now: u64) -> bool {
    now - written_at <= lifespan
}

impl CacheView {
    /// A cache without entries.
    pub open spec fn empty(lifespan: u64) -> CacheView {
        CacheView { entries: Map::empty(), lifespan }
    }

    /// The identifier visible under `key` at time `now`: the one stored, unless none is
    /// stored or the entry has outlived the lifespan.
    pub open spec fn lookup(self, key: u64, now: u64) -> Option<u64> {
        if self.entries.contains_key(key) && is_fresh(self.entries[key].1, self.lifespan, now) {
            Some(self.entries[key].0)
        } else {
            None
        }
    }

    /// The cache after `value` was written under `key` at time `now`.
    pub open spec fn set(self, key: u64, value: u64, now: u64) -> CacheView {
        CacheView { entries: self.entries.insert(key, (value, now)), lifespan: self.lifespan }
    }

    /// The cache after the entry under `key` was removed.
    pub open spec fn invalidate(self, key: u64) -> CacheView {
        CacheView { entries: self.entries.remove(key), lifespan: self.lifespan }
    }
}

/// A map from keys to identifiers whose entries expire.
pub struct ExpiringCache {
    store: UnboundCache<u64, (u64, u64), RandomState>,
    lifespan: u64,
}

impl View for ExpiringCache {
    type V = CacheView;

    closed spec fn view(&self) -> CacheView {
        CacheView { entries: stored(self.store), lifespan: self.lifespan }
    }
}

impl ExpiringCache {
    /// An empty cache whose entries stay visible for `lifespan` time units.
    pub fn new(lifespan: u64) -> (cache: ExpiringCache)
        ensures
            cache@ == CacheView::empty(lifespan),
    {
        ExpiringCache { store: store_new(), lifespan }
    }

    /// The lifespan that the cache was made with.
    pub fn lifespan(&self) -> (lifespan: u64)
        ensures
            lifespan == self@.lifespan,
    {
        self.lifespan
    }

    /// The identifier visible under `key` at time `now`. The entries are left as they are.
    pub fn get(&mut self, key: u64, now: u64) -> (found: Option<u64>)
        ensures
            found == old(self)@.lookup(key, now),
            final(self)@ == old(self)@,
    {
        match store_get(&mut self.store, key) {
            Some((value, written_at)) => {
                if now <= written_at || now - written_at <= self.lifespan {
                    Some(value)
                } else {
                    None
                }
            },
            None => None,
        }
    }

    /// Writes `value` under `key`, stamped with `now`. Whatever was stored under `key` is
    /// replaced.
    pub fn set(&mut self, key: u64, value: u64, now: u64)
        ensures
            final(self)@ == old(self)@.set(key, value, now),
    {
        let _ = store_set(&mut self.store, key, (value, now));
    }

    /// Removes the entry under `key`, fresh or not.
    pub fn invalidate(&mut self, key: u64)
        ensures
            final(self)@ == old(self)@.invalidate(key),
    {
        let _ = store_remove(&mut self.store, key);
    }
}

/// An entry is visible from the moment it is written until it is older than the lifespan,
/// and not afterwards.
pub proof fn lemma_entry_expires(c: CacheView, key: u64, value: u64, written_at: u64, now: u64)
    ensures
        now - written_at <= c.lifespan ==> c.set(key, value, written_at).lookup(key, now) == Some(
            value,
        ),
        now - written_at > c.lifespan ==> c.set(key, value, written_at).lookup(key, now) is None,
{
}

/// After an entry was invalidated, a lookup of its key misses at every time, however much
/// of its lifespan was left.
pub proof fn lemma_invalidated_entry_is_absent(c: CacheView, key: u64, now: u64)
    ensures
        c.invalidate(key).lookup(key, now) is None,
{
}

/// Writing or invalidating one key leaves what is visible under every other key unchanged.
pub proof fn lemma_other_keys_untouched(
    c: CacheView,
    key: u64,
    other: u64,
    value: u64,
    written_at: u64,
    now: u64,
)
    requires
        key != other,
    ensures
        c.set(key, value, written_at).lookup(other, now) == c.lookup(other, now),
        c.invalidate(key).lookup(other, now) == c.lookup(other, now),
{
}

/// An entry that is written anew after an invalidation shows the new identifier, never the
/// old one.
pub proof fn lemma_rewritten_entry_replaces_old(
    c: CacheView,
    key: u64,
    old_value: u64,
    old_time: u64,
    new_value: u64,
    new_time: u64,
    now: u64,
)
    ensures
        ({
            let rewritten = c.set(key, old_value, old_time).invalidate(key).set(
                key,
                new_value,
                new_time,
            );
            rewritten.lookup(key, now) == if now - new_time <= c.lifespan {
                Some(new_value)
            } else {
                None
            }
        }),
{
}

} // verus!
