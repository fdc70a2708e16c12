//! The freshness rules of the on-disk cache and the read-through policy of
//! providers. Reading and writing files is left to the caller.

use vstd::prelude::*;
use crate::provider_result::ProviderResult;

verus! {

/// What a cache lookup found.
#[derive(Debug, Clone)]
pub enum CacheResult<T> {
    /// Present and younger than the time to live.
    Hit(T),
    /// Absent.
    Miss,
    /// Present but older than the time to live; usable if the upstream fails.
    Stale(T),
}

/// An entry saved at `saved_at` is fresh at `now` while fewer than `ttl`
/// seconds have passed. All times are in seconds.
pub open spec fn is_fresh(saved_at: i64, now: i64, ttl: u64) -> bool {
    now - saved_at < ttl
}

pub open spec fn classified<T>(entry: Option<(T, i64)>, now: i64, ttl: u64) -> CacheResult<T> {
    match entry {
        None => CacheResult::Miss,
        Some((v, saved_at)) => if is_fresh(saved_at, now, ttl) { CacheResult::Hit(v) } else { CacheResult::Stale(v) },
    }
}

/// Classifies a stored entry, given as its value and the time it was saved.
pub fn classify_entry<T>(entry: Option<(T, i64)>, now: i64, ttl: u64) -> (r: CacheResult<T>)
    ensures
        r == classified(entry, now, ttl),
{
    match entry {
        None => CacheResult::Miss,
        Some((value, saved_at)) => {
            if (now as i128) - (saved_at as i128) < ttl as i128 {
                CacheResult::Hit(value)
            } else {
                CacheResult::Stale(value)
            }
        },
    }
}

/// Whether the upstream must be asked: on a miss or a stale entry.
pub fn needs_fetch<T>(cached: &CacheResult<T>) -> (r: bool)
    ensures
        r == !(cached is Hit),
{
    match cached {
        CacheResult::Hit(_) => false,
        _ => true,
    }
}

/// The read-through rule after a miss or a stale entry: a successful fetch
/// is used; on a failed one the stale value if there is one, else the error.
pub open spec fn resolved<T>(stale: Option<T>, fetched: Result<T, String>) -> ProviderResult<T> {
    match fetched {
        Ok(fresh) => ProviderResult::Found(fresh),
        Err(e) => match stale {
            Some(v) => ProviderResult::Found(v),
            None => ProviderResult::Error(e),
        },
    }
}

/// Applies the read-through rule; see [`resolved`].
pub fn resolve<T>(stale: Option<T>, fetched: Result<T, String>) -> (r: ProviderResult<T>)
    ensures
        r == resolved(stale, fetched),
{
    match fetched {
        Ok(fresh) => ProviderResult::Found(fresh),
        Err(e) => match stale {
            Some(v) => ProviderResult::Found(v),
            None => ProviderResult::Error(e),
        },
    }
}

/// The value of a stale entry, to fall back on.
pub fn stale_value<T>(cached: CacheResult<T>) -> (r: Option<T>)
    ensures
        cached is Stale ==> r == Some(cached->Stale_0),
        !(cached is Stale) ==> r is None,
{
    match cached {
        CacheResult::Stale(v) => Some(v),
        _ => None,
    }
}

/// A value saved at `saved_at` and read back before its time to live has
/// passed is a hit holding that value.
pub proof fn lemma_save_then_load<T>(v: T, saved_at: i64, now: i64, ttl: u64)
    requires
        now - saved_at < ttl,
    ensures
        classified(Some((v, saved_at)), now, ttl) == CacheResult::Hit(v),
{
}

/// When the entry has outlived its time to live and the upstream fetch fails,
/// the stale value is returned, never an error.
pub proof fn lemma_stale_fallback<T>(v: T, saved_at: i64, now: i64, ttl: u64, e: String)
    requires
        now - saved_at >= ttl,
    ensures
        classified(Some((v, saved_at)), now, ttl) == CacheResult::Stale(v),
        resolved(Some(v), Err::<T, String>(e)) == ProviderResult::Found(v),
{
}

} // verus!
