//! The cache store: payloads by cache key, each with the time it was stored.
//!
//! Times are readings of a monotonic clock in nanoseconds. An entry is never
//! changed in part and never removed on its own: storing replaces it whole,
//! and clearing empties the store.

use vstd::prelude::*;

use crate::text_map::TextMap;
use serde_json::Value;

verus! {

/// Nanoseconds in a second.
pub const NANOS_PER_SECOND: u64 = 1_000_000_000;

/// A cached payload and the clock reading at which it was stored.
#[derive(Debug)]
pub struct CacheEntry {
    pub payload: Value,
    pub stored_at: u64,
}

/// How long ago an entry was stored: the time from its reading to the
/// present one, nothing where the clock reads earlier than it did then.
pub open spec fn age(stored_at: u64, now: u64) -> u64 {
    if now >= stored_at {
        (now - stored_at) as u64
    } else {
        0
    }
}

/// An entry of that age is younger than a time-to-live given in seconds.
pub open spec fn within_ttl(age: u64, ttl_seconds: u64) -> bool {
    age < ttl_seconds * NANOS_PER_SECOND
}

/// Computes the age of an entry.
pub fn age_of(stored_at: u64, now: u64) -> (elapsed: u64)
    ensures
        elapsed == age(stored_at, now),
{
    if now >= stored_at {
        now - stored_at
    } else {
        0
    }
}

/// Decides whether an age is below a time-to-live given in seconds.
pub fn is_within_ttl(age: u64, ttl_seconds: u64) -> (answer: bool)
    ensures
        answer == within_ttl(age, ttl_seconds),
{
    age / NANOS_PER_SECOND < ttl_seconds
}

/// The cache store.
#[derive(Debug)]
pub struct CacheStore {
    entries: TextMap<CacheEntry>,
}

impl View for CacheStore {
    type V = Map<Seq<char>, CacheEntry>;

    closed spec fn view(&self) -> Map<Seq<char>, CacheEntry> {
        self.entries@
    }
}

impl CacheStore {
    /// A store without entries.
    pub fn new() -> (made: Self)
        ensures
            made@ == Map::<Seq<char>, CacheEntry>::empty(),
    {
        CacheStore { entries: TextMap::new() }
    }

    /// The payload stored under a key and its age, or nothing where the key
    /// has no entry.
    pub fn get(&self, key: &str, now: u64) -> (found: Option<(Value, u64)>)
        ensures
            found == (if self@.contains_key(key@) {
                Some((self@[key@].payload, age(self@[key@].stored_at, now)))
            } else {
                None
            }),
    {
        match self.entries.get(key) {
            Some(entry) => Some((entry.payload.clone(), age_of(entry.stored_at, now))),
            None => None,
        }
    }

    /// Stores a payload under a key with the present clock reading, in place
    /// of the entry that was there.
    pub fn put(&mut self, key: String, payload: Value, now: u64)
        ensures
            final(self)@ == old(self)@.insert(key@, CacheEntry { payload, stored_at: now }),
    {
        self.entries.insert(key, CacheEntry { payload, stored_at: now });
    }

    /// Removes every entry.
    pub fn clear(&mut self)
        ensures
            final(self)@ == Map::<Seq<char>, CacheEntry>::empty(),
    {
        self.entries.clear();
    }
}

} // verus!
