//! The cache store: a key-to-entry map with lazy, read-time expiry and a
//! read-through `fetch` operation.
//!
//! The model of a store is a `Map<Seq<char>, CacheEntryView>`. Every
//! operation is specified against that map: `spec_read` says what a lookup
//! at a given clock reading returns, and `spec_write` says what the store
//! becomes after an upsert at a given clock reading. The operations that
//! consult the wall clock themselves (`read`, `write`, `fetch`) promise
//! that their effect is `spec_read`/`spec_write` at *some* clock reading,
//! plus everything that holds at every clock reading; the `_at` variants
//! take the clock reading as an argument and have exact contracts.

use vstd::prelude::*;

use crate::clock::now_in_millis;
use crate::entry::{ZEntry, ZEntryView};
use crate::error::ZCacheError;
use vstd::hash_map::StringHashMap;

verus! {

/// One stored entry: a value paired with its expiry marker.
///
/// `valid_until == 0` is the sentinel for "never expires"; any other value
/// is an absolute timestamp in milliseconds since the Unix epoch after
/// which the entry is stale.
pub struct CacheEntry {
    pub valid_until: u128,
    pub value: ZEntry,
}

/// The mathematical value of a [`CacheEntry`].
pub struct CacheEntryView {
    pub valid_until: u128,
    pub value: ZEntryView,
}

impl View for CacheEntry {
    type V = CacheEntryView;

    open spec fn view(&self) -> CacheEntryView {
        CacheEntryView { valid_until: self.valid_until, value: self.value@ }
    }
}

/// Whether an entry with the given expiry marker is fresh at clock reading
/// `now`: either it never expires, or its expiry lies strictly in the future.
pub open spec fn entry_fresh_at(valid_until: u128, now: u64) -> bool {
    valid_until == 0 || valid_until > now as u128
}

/// The expiry marker a write computes: `now + ttl` for a bounded write,
/// the "never expires" sentinel for an unbounded one.
pub open spec fn spec_expiry(expires_in: Option<u64>, now: u64) -> u128 {
    match expires_in {
        Some(d) => (now + d) as u128,
        None => 0,
    }
}

/// What a lookup of `key` in store `m` returns at clock reading `now`:
/// the stored value if the key holds a fresh entry, absence otherwise.
/// A stale entry is observed as absent but not removed.
pub open spec fn spec_read(
    m: Map<Seq<char>, CacheEntryView>,
    key: Seq<char>,
    now: u64,
) -> Option<ZEntryView> {
    if m.contains_key(key) && entry_fresh_at(m[key].valid_until, now) {
        Some(m[key].value)
    } else {
        None
    }
}

/// What store `m` becomes when `value` is written under `key` with the
/// given time-to-live at clock reading `now`: a full replacement of any
/// existing entry.
pub open spec fn spec_write(
    m: Map<Seq<char>, CacheEntryView>,
    key: Seq<char>,
    value: ZEntryView,
    expires_in: Option<u64>,
    now: u64,
) -> Map<Seq<char>, CacheEntryView> {
    m.insert(key, CacheEntryView { valid_until: spec_expiry(expires_in, now), value })
}

/// The value carried by an optional entry, if any.
pub open spec fn opt_entry_view(r: Option<ZEntry>) -> Option<ZEntryView> {
    match r {
        Some(v) => Some(v@),
        None => None,
    }
}

/// The cache store: a mapping from string key to entry. Keys are unique, a
/// write fully replaces any existing entry, and entries are never removed
/// individually — only observed as absent once stale, or dropped in bulk
/// by [`ZCache::clear`].
pub struct ZCache {
    store: StringHashMap<CacheEntry>,
}

impl View for ZCache {
    type V = Map<Seq<char>, CacheEntryView>;

    closed spec fn view(&self) -> Map<Seq<char>, CacheEntryView> {
        self.store@.map_values(|e: CacheEntry| e@)
    }
}

impl ZCache {
    /// Creates an empty cache.
    pub fn new() -> (c: ZCache)
        ensures
            c@ == Map::<Seq<char>, CacheEntryView>::empty(),
    {
        let c = ZCache { store: StringHashMap::new() };
        proof {
            assert(c@ =~= Map::<Seq<char>, CacheEntryView>::empty());
        }
        c
    }

    /// Looks `key` up as of clock reading `now`: returns the stored value
    /// if the key holds a fresh entry, absence otherwise. Never mutates
    /// the store — a stale entry is left in place.
    pub fn read_at(&self, key: &str, now: u64) -> (r: Option<ZEntry>)
        ensures
            opt_entry_view(r) == spec_read(self@, key@, now),
    {
        match self.store.get(key) {
            Some(e) => {
                proof {
                    assert(self@.contains_key(key@));
                    assert(self@[key@] == e@);
                }
                if e.valid_until == 0 || e.valid_until > now as u128 {
                    Some(e.value.clone())
                } else {
                    None
                }
            }
            None => {
                proof {
                    assert(!self@.contains_key(key@));
                }
                None
            }
        }
    }

    /// Looks `key` up as of the current wall clock. The result is a
    /// [`Self::read_at`] at some clock reading; independently of the
    /// clock, an absent key reads as absent, a never-expiring entry always
    /// comes back, and whatever comes back is the stored value.
    pub fn read(&self, key: &str) -> (r: Option<ZEntry>)
        ensures
            exists|now: u64| opt_entry_view(r) == spec_read(self@, key@, now),
            !self@.contains_key(key@) ==> r is None,
            self@.contains_key(key@) && self@[key@].valid_until == 0 ==> opt_entry_view(r)
                == Some(self@[key@].value),
            r matches Some(v) ==> self@.contains_key(key@) && v@ == self@[key@].value,
    {
        let now = now_in_millis();
        let r = self.read_at(key, now);
        proof {
            assert(opt_entry_view(r) == spec_read(self@, key@, now));
        }
        r
    }

    /// Stores `value` under `key` as of clock reading `now`: with a
    /// time-to-live the entry expires `expires_in` milliseconds after
    /// `now`, without one it never expires. Unconditionally replaces any
    /// existing entry. Cannot fail.
    pub fn write_at(&mut self, key: &str, value: ZEntry, expires_in: Option<u64>, now: u64)
        ensures
            final(self)@ == spec_write(old(self)@, key@, value@, expires_in, now),
    {
        let valid_until: u128 = match expires_in {
            Some(d) => (now as u128) + (d as u128),
            None => 0,
        };
        let ghost v = value@;
        self.store.insert(key.to_owned(), CacheEntry { valid_until, value });
        proof {
            assert(self@ =~= spec_write(old(self)@, key@, v, expires_in, now));
        }
    }

    /// Stores `value` under `key` as of the current wall clock. The effect
    /// is a [`Self::write_at`] at some clock reading; a write without a
    /// time-to-live is pinned exactly, and independently of the clock the
    /// key afterwards holds `value` and no other key changes.
    pub fn write(&mut self, key: &str, value: ZEntry, expires_in: Option<u64>)
        ensures
            exists|now: u64| final(self)@ == spec_write(old(self)@, key@, value@, expires_in, now),
            expires_in is None ==> final(self)@ == old(self)@.insert(
                key@,
                CacheEntryView { valid_until: 0, value: value@ },
            ),
            final(self)@.contains_key(key@) && final(self)@[key@].value == value@,
            forall|k: Seq<char>| #![auto] k != key@ && old(self)@.contains_key(k) ==> final(self)@.contains_key(k) && final(self)@[k] == old(self)@[k],
            forall|k: Seq<char>| #![auto] k != key@ && !old(self)@.contains_key(k) ==> !final(self)@.contains_key(k),
    {
        let now = now_in_millis();
        let ghost v = value@;
        self.write_at(key, value, expires_in, now);
        proof {
            assert(self@ == spec_write(old(self)@, key@, v, expires_in, now));
        }
    }

    /// Returns the cached value for `key` if a clock reading found it
    /// fresh; otherwise runs the producer `f` exactly once, stores and
    /// returns its value on success, and reports a [`ZCacheError`] naming
    /// `key` — leaving the store untouched — when it yields nothing. The
    /// store is not consulted or changed while the producer runs.
    pub fn fetch<F: FnOnce() -> Option<ZEntry>>(
        &mut self,
        key: &str,
        expires_in: Option<u64>,
        f: F,
    ) -> (r: Result<ZEntry, ZCacheError>)
        requires
            call_requires(f, ()),
        ensures
            ({
                ||| (exists|now: u64|
                    #[trigger] spec_read(old(self)@, key@, now) matches Some(v) && r matches Ok(
                        rv,
                    ) && rv@ == v && final(self)@ == old(self)@)
                ||| (exists|p: Option<ZEntry>|
                    #[trigger] call_ensures(f, (), p) && match p {
                        Some(pv) => r matches Ok(rv) && rv@ == pv@ && (exists|now: u64|
                            #![auto]
                            final(self)@ == spec_write(old(self)@, key@, pv@, expires_in, now)),
                        None => r matches Err(e) && e matches ZCacheError::FetchError(k) && k@
                            == key@ && final(self)@ == old(self)@,
                    })
            }),
            r matches Err(e) ==> (e matches ZCacheError::FetchError(k) && k@ == key@ && final(self)@ == old(self)@),
            r matches Ok(rv) ==> final(self)@.contains_key(key@) && final(self)@[key@].value
                == rv@,
            old(self)@.contains_key(key@) && old(self)@[key@].valid_until == 0 ==> (r matches Ok(rv)
                && rv@ == old(self)@[key@].value && final(self)@ == old(self)@),
    {
        let r0 = self.read(key);
        let ghost got = r0;
        match r0 {
            Some(v) => {
                proof {
                    let now0 = choose|now: u64|
                        opt_entry_view(got) == spec_read(old(self)@, key@, now);
                    assert(spec_read(old(self)@, key@, now0) == Some(v@));
                }
                Ok(v)
            },
            None => {
                let produced = f();
                let ghost pg = produced;
                match produced {
                    Some(pv) => {
                        let ghost pvv = pv@;
                        self.write(key, pv.clone(), expires_in);
                        proof {
                            assert(call_ensures(f, (), pg));
                            let now2 = choose|now: u64|
                                self@ == spec_write(old(self)@, key@, pvv, expires_in, now);
                            assert(self@ == spec_write(old(self)@, key@, pvv, expires_in, now2));
                        }
                        Ok(pv)
                    },
                    None => {
                        proof {
                            assert(call_ensures(f, (), pg));
                        }
                        Err(ZCacheError::FetchError(key.to_owned()))
                    },
                }
            },
        }
    }

    /// The read-through orchestration with both clock readings explicit:
    /// the lookup is decided at `now_read`, and a populating write stamps
    /// its expiry from `now_write`. On a fresh entry the producer is never
    /// run and the cached value is returned unchanged; on a miss the
    /// producer runs exactly once, its value is stored and returned, and a
    /// producer that yields nothing leaves the store untouched and reports
    /// a [`ZCacheError`] naming `key`.
    pub fn fetch_at<F: FnOnce() -> Option<ZEntry>>(
        &mut self,
        key: &str,
        expires_in: Option<u64>,
        now_read: u64,
        now_write: u64,
        f: F,
    ) -> (r: Result<ZEntry, ZCacheError>)
        requires
            call_requires(f, ()),
        ensures
            spec_read(old(self)@, key@, now_read) matches Some(v) ==> (r matches Ok(rv) && rv@ == v
                && final(self)@ == old(self)@),
            spec_read(old(self)@, key@, now_read) is None ==> (exists|p: Option<ZEntry>|
                #[trigger] call_ensures(f, (), p) && match p {
                    Some(pv) => r matches Ok(rv) && rv@ == pv@ && final(self)@ == spec_write(
                        old(self)@,
                        key@,
                        pv@,
                        expires_in,
                        now_write,
                    ),
                    None => r matches Err(e) && e matches ZCacheError::FetchError(k) && k@ == key@
                        && final(self)@ == old(self)@,
                }),
    {
        let r0 = self.read_at(key, now_read);
        match r0 {
            Some(v) => Ok(v),
            None => {
                let produced = f();
                let ghost pg = produced;
                match produced {
                    Some(pv) => {
                        self.write_at(key, pv.clone(), expires_in, now_write);
                        proof {
                            assert(call_ensures(f, (), pg));
                        }
                        Ok(pv)
                    },
                    None => {
                        proof {
                            assert(call_ensures(f, (), pg));
                        }
                        Err(ZCacheError::FetchError(key.to_owned()))
                    },
                }
            },
        }
    }

    /// Atomically replaces the whole store with an empty one.
    pub fn clear(&mut self)
        ensures
            final(self)@ == Map::<Seq<char>, CacheEntryView>::empty(),
    {
        self.store.clear();
        proof {
            assert(self@ =~= Map::<Seq<char>, CacheEntryView>::empty());
        }
    }
}

} // verus!
