//! The laws the cache obeys, stated over the store model and proved once
//! and for all. Each speaks of `spec_read` and `spec_write`, the spec
//! functions that the contracts of [`crate::cache::ZCache`] are written in.

use vstd::prelude::*;

use crate::cache::{spec_read, spec_write, CacheEntryView};
use crate::entry::ZEntryView;

verus! {

/// A key never written reads as absent, at every clock reading.
pub proof fn lemma_read_unwritten(m: Map<Seq<char>, CacheEntryView>, key: Seq<char>, now: u64)
    requires
        !m.contains_key(key),
    ensures
        spec_read(m, key, now) is None,
{
}

/// A write without a time-to-live, read back at any later (indeed any)
/// clock reading, returns the written value unchanged, whichever variant
/// it holds: never-expiring entries never go stale.
pub proof fn lemma_write_never_expires_read(
    m: Map<Seq<char>, CacheEntryView>,
    key: Seq<char>,
    value: ZEntryView,
    now_write: u64,
    now_read: u64,
)
    ensures
        spec_read(spec_write(m, key, value, None, now_write), key, now_read) == Some(value),
{
}

/// A write with a positive time-to-live, read back before the ttl has
/// elapsed, returns the written value; read back once the ttl has elapsed,
/// it reads as absent.
pub proof fn lemma_write_ttl_read(
    m: Map<Seq<char>, CacheEntryView>,
    key: Seq<char>,
    value: ZEntryView,
    ttl: u64,
    now_write: u64,
    now_read: u64,
)
    requires
        ttl > 0,
    ensures
        (now_read as int) < now_write + ttl ==> spec_read(
            spec_write(m, key, value, Some(ttl), now_write),
            key,
            now_read,
        ) == Some(value),
        (now_read as int) >= now_write + ttl ==> spec_read(
            spec_write(m, key, value, Some(ttl), now_write),
            key,
            now_read,
        ) is None,
{
}

/// Writes are idempotent: writing the same key, value and time-to-live
/// again leaves the store exactly as the last such write alone would, so
/// a repeated write is observably a single write.
pub proof fn lemma_write_idempotent(
    m: Map<Seq<char>, CacheEntryView>,
    key: Seq<char>,
    value: ZEntryView,
    expires_in: Option<u64>,
    now_first: u64,
    now_second: u64,
)
    ensures
        spec_write(
            spec_write(m, key, value, expires_in, now_first),
            key,
            value,
            expires_in,
            now_second,
        ) == spec_write(m, key, value, expires_in, now_second),
{
    assert(spec_write(
        spec_write(m, key, value, expires_in, now_first),
        key,
        value,
        expires_in,
        now_second,
    ) =~= spec_write(m, key, value, expires_in, now_second));
}

/// A write touches no key but its own: every other key keeps exactly the
/// entry, and the absence, that it had before.
pub proof fn lemma_write_frames_other_keys(
    m: Map<Seq<char>, CacheEntryView>,
    key: Seq<char>,
    other: Seq<char>,
    value: ZEntryView,
    expires_in: Option<u64>,
    now: u64,
)
    requires
        other != key,
    ensures
        spec_write(m, key, value, expires_in, now).contains_key(other) == m.contains_key(other),
        m.contains_key(other) ==> spec_write(m, key, value, expires_in, now)[other] == m[other],
{
}

} // verus!
