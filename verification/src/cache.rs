//! Reads through the cache: what a service does with what the cache held
//! under a key.
use vstd::prelude::*;

verus! {

/// The step a read through the cache takes: use the value that the cache
/// held, or load the value from the store and then write it to the cache
/// under `key`, to live `ttl_secs` seconds.
#[derive(Debug, Clone, PartialEq)]
pub enum CacheRead<T> {
    Hit(T),
    Miss { key: String, ttl_secs: u64 },
}

/// The step for a read of `key` that the cache answered with `cached`: a
/// held value is used as it is; otherwise the value is loaded and cached
/// under `key` for `ttl_secs` seconds.
pub fn read_through<T>(key: String, ttl_secs: u64, cached: Option<T>) -> (r: CacheRead<T>)
    ensures
        match cached {
            Some(v) => r == CacheRead::<T>::Hit(v),
            None => r == CacheRead::<T>::Miss { key, ttl_secs },
        },
{
    match cached {
        Some(v) => CacheRead::Hit(v),
        None => CacheRead::Miss { key, ttl_secs },
    }
}

} // verus!
