//! The single error the cache can report.

use vstd::prelude::*;

verus! {

/// The one failure a cache operation can report: `fetch` was asked to
/// populate a key, and the producer yielded nothing usable. The payload
/// is the key whose producer failed.
///
/// A `read` miss or an expired entry is a normal "not found" outcome,
/// not an error.
#[derive(Debug)]
#[non_exhaustive]
pub enum ZCacheError {
    FetchError(String),
}

impl ZCacheError {
    /// The key whose producer failed.
    pub fn key(&self) -> (r: &str)
        ensures
            self matches ZCacheError::FetchError(k) && r@ == k@,
    {
        match self {
            ZCacheError::FetchError(k) => k.as_str(),
        }
    }
}

} // verus!
