//! An in-memory cache mapping string keys to tagged values, with optional
//! time-based expiry and a read-through `fetch` operation.

pub mod cache;
pub mod clock;
pub mod entry;
pub mod error;
pub mod laws;

pub use cache::CacheEntry;
pub use cache::CacheEntryView;
pub use cache::ZCache;
pub use clock::now_in_millis;
pub use entry::ZEntry;
pub use entry::ZEntryView;
pub use error::ZCacheError;
