//! A cache whose entries expire a fixed time after they were stored.
//!
//! Time is counted in nanoseconds since the cache was made. Every operation
//! exists in two forms: one that is told the time, whose contract is exact,
//! and one that reads the clock and then does what the first does.

use std::time::Instant;
use vstd::prelude::*;
use vstd::string::StringExecFns;
use crate::table::Table;

verus! {

/// Nanoseconds in a second.
pub const NANOS_PER_SECOND: u128 = 1_000_000_000;

/// A stored value and the time at which it was stored.
#[derive(Debug)]
pub struct CacheEntry<T> {
    pub value: T,
    pub timestamp: u128,
}

/// The time that has passed at `now` since `timestamp`; none if `now` is
/// the earlier of the two.
pub open spec fn age(timestamp: u128, now: u128) -> nat {
    if now >= timestamp {
        (now - timestamp) as nat
    } else {
        0
    }
}

/// An entry stored at `timestamp` has not expired at `now`.
pub open spec fn is_live(timestamp: u128, now: u128, ttl: u128) -> bool {
    age(timestamp, now) < ttl
}

/// What a lookup of `key` at `now` finds: the value of a live entry.
pub open spec fn lookup<T>(
    entries: Map<Seq<char>, CacheEntry<T>>,
    key: Seq<char>,
    now: u128,
    ttl: u128,
) -> Option<T> {
    if entries.contains_key(key) && is_live(entries[key].timestamp, now, ttl) {
        Some(entries[key].value)
    } else {
        None
    }
}

/// What a lookup of `key` at `now` leaves: an expired entry under `key` is
/// gone, everything else stays.
pub open spec fn after_lookup<T>(
    entries: Map<Seq<char>, CacheEntry<T>>,
    key: Seq<char>,
    now: u128,
    ttl: u128,
) -> Map<Seq<char>, CacheEntry<T>> {
    if entries.contains_key(key) && !is_live(entries[key].timestamp, now, ttl) {
        entries.remove(key)
    } else {
        entries
    }
}

/// What storing `value` under `key` at `now` leaves.
pub open spec fn after_insert<T>(
    entries: Map<Seq<char>, CacheEntry<T>>,
    key: Seq<char>,
    value: T,
    now: u128,
) -> Map<Seq<char>, CacheEntry<T>> {
    entries.insert(key, CacheEntry { value, timestamp: now })
}

/// The entries that have not expired at `now`.
pub open spec fn pruned<T>(entries: Map<Seq<char>, CacheEntry<T>>, now: u128, ttl: u128) -> Map<
    Seq<char>,
    CacheEntry<T>,
> {
    entries.restrict(
        Set::new(|k: Seq<char>| entries.contains_key(k) && is_live(entries[k].timestamp, now, ttl)),
    )
}

/// A cache from text to `T` with a time to live.
#[derive(Debug)]
pub struct Cache<T: Clone> {
    entries: Table<CacheEntry<T>>,
    ttl: u128,
    epoch: Instant,
}

impl<T: Clone> View for Cache<T> {
    type V = Map<Seq<char>, CacheEntry<T>>;

    closed spec fn view(&self) -> Map<Seq<char>, CacheEntry<T>> {
        self.entries@
    }
}

impl<T: Clone> Cache<T> {
    /// No key is stored twice.
    pub closed spec fn wf(&self) -> bool {
        self.entries.wf()
    }

    /// The time to live, in nanoseconds.
    pub closed spec fn ttl_nanos(&self) -> u128 {
        self.ttl
    }

    /// An empty cache whose entries live for `ttl_seconds` seconds.
    pub fn new(ttl_seconds: u64) -> (cache: Self)
        ensures
            cache.wf(),
            cache@ == Map::<Seq<char>, CacheEntry<T>>::empty(),
            cache.ttl_nanos() == ttl_seconds * NANOS_PER_SECOND,
    {
        Cache {
            entries: Table::new(),
            ttl: (ttl_seconds as u128) * NANOS_PER_SECOND,
            epoch: Instant::now(),
        }
    }

    /// The time on this cache's clock: nanoseconds since it was made.
    pub fn now(&self) -> u128 {
        self.epoch.elapsed().as_nanos()
    }

    /// The value stored under `key`, if it has not expired at `now`. An
    /// expired entry under `key` is removed.
    pub fn get_at(&mut self, key: &str, now: u128) -> (found: Option<T>)
        requires
            old(self).wf(),
        ensures
            final(self).wf(),
            final(self).ttl_nanos() == old(self).ttl_nanos(),
            final(self)@ == after_lookup(old(self)@, key@, now, old(self).ttl_nanos()),
            match lookup(old(self)@, key@, now, old(self).ttl_nanos()) {
                Some(v) => found is Some && cloned(v, found->0),
                None => found is None,
            },
    {
        match self.entries.position(key) {
            None => None,
            Some(i) => {
                let entry = self.entries.value_at(i);
                let age: u128 = if now >= entry.timestamp {
                    now - entry.timestamp
                } else {
                    0
                };
                if age < self.ttl {
                    Some(entry.value.clone())
                } else {
                    self.entries.remove_at(i);
                    None
                }
            },
        }
    }

    /// The value stored under `key`, if it has not expired by now. An
    /// expired entry under `key` is removed.
    pub fn get(&mut self, key: &str) -> (found: Option<T>)
        requires
            old(self).wf(),
        ensures
            final(self).wf(),
            final(self).ttl_nanos() == old(self).ttl_nanos(),
            exists|now: u128|
                {
                    &&& final(self)@ == #[trigger] after_lookup(
                        old(self)@,
                        key@,
                        now,
                        old(self).ttl_nanos(),
                    )
                    &&& match lookup(old(self)@, key@, now, old(self).ttl_nanos()) {
                        Some(v) => found is Some && cloned(v, found->0),
                        None => found is None,
                    }
                },
    {
        let now = self.now();
        self.get_at(key, now)
    }

    /// Stores `value` under `key` with the time `now`, in place of any entry
    /// under that key.
    pub fn insert_at(&mut self, key: String, value: T, now: u128)
        requires
            old(self).wf(),
        ensures
            final(self).wf(),
            final(self).ttl_nanos() == old(self).ttl_nanos(),
            final(self)@ == after_insert(old(self)@, key@, value, now),
    {
        self.entries.set(key, CacheEntry { value, timestamp: now });
    }

    /// Stores `value` under `key` with the current time, in place of any
    /// entry under that key.
    pub fn insert(&mut self, key: String, value: T)
        requires
            old(self).wf(),
        ensures
            final(self).wf(),
            final(self).ttl_nanos() == old(self).ttl_nanos(),
            exists|now: u128| final(self)@ == #[trigger] after_insert(old(self)@, key@, value, now),
    {
        let now = self.now();
        self.insert_at(key, value, now);
    }

    /// Removes every entry.
    pub fn clear(&mut self)
        requires
            old(self).wf(),
        ensures
            final(self).wf(),
            final(self).ttl_nanos() == old(self).ttl_nanos(),
            final(self)@ == Map::<Seq<char>, CacheEntry<T>>::empty(),
    {
        self.entries.clear();
    }

    /// Removes the entries that have expired at `now`, and no others.
    pub fn prune_at(&mut self, now: u128)
        requires
            old(self).wf(),
        ensures
            final(self).wf(),
            final(self).ttl_nanos() == old(self).ttl_nanos(),
            final(self)@ == pruned(old(self)@, now, old(self).ttl_nanos()),
    {
        let ghost before = self.entries;
        let ttl = self.ttl;
        let mut i: usize = self.entries.len();
        while i > 0
            invariant
                self.entries.wf(),
                self.ttl == ttl,
                i <= self.entries.spec_len(),
                forall|k: Seq<char>| #[trigger]
                    self.entries@.contains_key(k) ==> before@.contains_key(k) && self.entries@[k]
                        == before@[k],
                forall|k: Seq<char>|
                    before@.contains_key(k) && is_live(before@[k].timestamp, now, ttl)
                        ==> #[trigger] self.entries@.contains_key(k),
                forall|j: int|
                    i <= j < self.entries.spec_len() ==> is_live(
                        (#[trigger] self.entries.spec_value(j)).timestamp,
                        now,
                        ttl,
                    ),
            decreases i,
        {
            i -= 1;
            let ghost current = self.entries;
            proof {
                current.lemma_positions();
            }
            let entry = self.entries.value_at(i);
            let age: u128 = if now >= entry.timestamp {
                now - entry.timestamp
            } else {
                0
            };
            if age >= ttl {
                self.entries.remove_at(i);
                proof {
                    assert forall|j: int| i <= j < self.entries.spec_len() implies is_live(
                        (#[trigger] self.entries.spec_value(j)).timestamp,
                        now,
                        ttl,
                    ) by {
                        assert(self.entries.spec_value(j) == current.spec_value(j + 1));
                    }
                }
            }
        }
        proof {
            self.entries.lemma_positions();
        }
    }

    /// Removes the entries that have expired by now, and no others.
    pub fn prune(&mut self)
        requires
            old(self).wf(),
        ensures
            final(self).wf(),
            final(self).ttl_nanos() == old(self).ttl_nanos(),
            exists|now: u128|
                final(self)@ == #[trigger] pruned(old(self)@, now, old(self).ttl_nanos()),
    {
        let now = self.now();
        self.prune_at(now);
    }
}

/// The key under which the availability of the tool `name` is cached.
pub open spec fn tool_key(name: Seq<char>) -> Seq<char> {
    "tool_"@ + name
}

/// The key under which the availability of the tool `tool_name` is cached.
pub fn tool_cache_key(tool_name: &str) -> (key: String)
    ensures
        key@ == tool_key(tool_name@),
{
    let mut key = String::from_str("tool_");
    key.append(tool_name);
    key
}

/// Whether the tool `tool_name` is installed, as far as `cache` knows at
/// `now`: the answer of a live entry, or nothing. An expired entry for the
/// tool is removed.
pub fn cached_tool(cache: &mut Cache<bool>, tool_name: &str, now: u128) -> (known: Option<bool>)
    requires
        old(cache).wf(),
    ensures
        final(cache).wf(),
        final(cache).ttl_nanos() == old(cache).ttl_nanos(),
        known == lookup(old(cache)@, tool_key(tool_name@), now, old(cache).ttl_nanos()),
        final(cache)@ == after_lookup(
            old(cache)@,
            tool_key(tool_name@),
            now,
            old(cache).ttl_nanos(),
        ),
{
    let key = tool_cache_key(tool_name);
    cache.get_at(key.as_str(), now)
}

/// Records at `now` whether the tool `tool_name` is installed.
pub fn remember_tool(cache: &mut Cache<bool>, tool_name: &str, available: bool, now: u128)
    requires
        old(cache).wf(),
    ensures
        final(cache).wf(),
        final(cache).ttl_nanos() == old(cache).ttl_nanos(),
        final(cache)@ == after_insert(old(cache)@, tool_key(tool_name@), available, now),
{
    let key = tool_cache_key(tool_name);
    cache.insert_at(key, available, now);
}

/// How a cache stands after it was asked at `now` whether a tool is
/// installed and answered `available`: a live entry gave the answer and
/// nothing changed, or there was none and the answer was stored at `stored`.
pub open spec fn tool_outcome(
    before: Map<Seq<char>, CacheEntry<bool>>,
    after: Map<Seq<char>, CacheEntry<bool>>,
    key: Seq<char>,
    ttl: u128,
    available: bool,
    now: u128,
    stored: u128,
) -> bool {
    match lookup(before, key, now, ttl) {
        Some(known) => available == known && after == before,
        None => after == after_insert(before, key, available, stored),
    }
}

/// Whether the tool `tool_name` is installed. A live entry of `cache`
/// answers, and then `check_fn` is not called and the cache stays as it is.
/// Otherwise `check_fn` answers, and its answer is stored with the time at
/// which it came.
pub fn has_tool_cached(
    cache: &mut Cache<bool>,
    tool_name: &str,
    check_fn: impl FnOnce() -> bool,
) -> (available: bool)
    requires
        old(cache).wf(),
        check_fn.requires(()),
    ensures
        final(cache).wf(),
        final(cache).ttl_nanos() == old(cache).ttl_nanos(),
        exists|now: u128, stored: u128|
            {
                &&& #[trigger] tool_outcome(
                    old(cache)@,
                    final(cache)@,
                    tool_key(tool_name@),
                    old(cache).ttl_nanos(),
                    available,
                    now,
                    stored,
                )
                &&& lookup(old(cache)@, tool_key(tool_name@), now, old(cache).ttl_nanos())
                    is None ==> check_fn.ensures((), available)
            },
{
    let ghost key = tool_key(tool_name@);
    let ghost before = cache@;
    let ghost ttl = cache.ttl_nanos();
    let now = cache.now();
    match cached_tool(cache, tool_name, now) {
        Some(known) => {
            assert(tool_outcome(before, cache@, key, ttl, known, now, now));
            known
        },
        None => {
            let available = check_fn();
            let stored = cache.now();
            remember_tool(cache, tool_name, available, stored);
            proof {
                assert(after_insert(after_lookup(before, key, now, ttl), key, available, stored)
                    =~= after_insert(before, key, available, stored));
                assert(tool_outcome(before, cache@, key, ttl, available, now, stored));
            }
            available
        },
    }
}

/// A value that was stored is found under its key for as long as it has
/// not expired, and finding it changes nothing.
pub proof fn lemma_insert_then_get<T>(
    entries: Map<Seq<char>, CacheEntry<T>>,
    key: Seq<char>,
    value: T,
    stored: u128,
    now: u128,
    ttl: u128,
)
    requires
        is_live(stored, now, ttl),
    ensures
        lookup(after_insert(entries, key, value, stored), key, now, ttl) == Some(value),
        after_lookup(after_insert(entries, key, value, stored), key, now, ttl) == after_insert(
            entries,
            key,
            value,
            stored,
        ),
{
}

/// Once the time to live has passed, a lookup finds nothing and removes
/// the entry; the other entries stay.
pub proof fn lemma_get_after_expiry<T>(
    entries: Map<Seq<char>, CacheEntry<T>>,
    key: Seq<char>,
    value: T,
    stored: u128,
    now: u128,
    ttl: u128,
)
    requires
        !is_live(stored, now, ttl),
    ensures
        lookup(after_insert(entries, key, value, stored), key, now, ttl) is None,
        !after_lookup(after_insert(entries, key, value, stored), key, now, ttl).contains_key(key),
        after_lookup(after_insert(entries, key, value, stored), key, now, ttl) == entries.remove(
            key,
        ),
{
}

/// Pruning removes the entries that have expired and only those: what is
/// left are exactly the live entries, each as it was.
pub proof fn lemma_prune_removes_only_expired<T>(
    entries: Map<Seq<char>, CacheEntry<T>>,
    now: u128,
    ttl: u128,
)
    ensures
        forall|k: Seq<char>| #[trigger]
            pruned(entries, now, ttl).contains_key(k) <==> entries.contains_key(k) && is_live(
                entries[k].timestamp,
                now,
                ttl,
            ),
        forall|k: Seq<char>| #[trigger]
            pruned(entries, now, ttl).contains_key(k) ==> pruned(entries, now, ttl)[k]
                == entries[k],
{
}

} // verus!
