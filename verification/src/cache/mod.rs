//! K-line cache entries and TTL policy.
use vstd::prelude::*;

pub mod memory;
pub mod policy;

verus! {

/// One cached K-line series.
#[derive(Debug)]
pub struct CachedKline {
    pub secid: String,
    pub period: String,
    pub adjust: String,
    pub data: String,
    pub cached_at: i64,
    pub ttl: i64,
}

impl Clone for CachedKline {
    fn clone(&self) -> (r: Self)
        ensures
            r == *self,
    {
        CachedKline {
            secid: self.secid.clone(),
            period: self.period.clone(),
            adjust: self.adjust.clone(),
            data: self.data.clone(),
            cached_at: self.cached_at,
            ttl: self.ttl,
        }
    }
}

impl CachedKline {
    /// The entry is still fresh at time `now` (seconds): less than `ttl` has passed since it
    /// was cached.
    pub fn is_fresh_at(&self, now: i64) -> (r: bool)
        ensures
            r == (now - self.cached_at < self.ttl),
    {
        (now as i128) - (self.cached_at as i128) < (self.ttl as i128)
    }
}

} // verus!
