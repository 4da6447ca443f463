//! A single-entry cache whose value stays fresh for `ttl` ticks (block
//! numbers) after it was written, to avoid repeating a cross-contract read
//! within that window.

use vstd::prelude::*;

verus! {

/// Caches a single value for `ttl` ticks.
pub struct TtlCache<V: Clone> {
    value: Option<V>,
    cached_at: u32,
    ttl: u32,
}

/// The number of ticks from `from` to `now`, zero when `now` lies before `from`.
pub open spec fn ticks_since(from: u32, now: u32) -> u32 {
    if now >= from { (now - from) as u32 } else { 0 }
}

impl<V: Clone> TtlCache<V> {
    /// The value last written, if any.
    pub closed spec fn stored(&self) -> Option<V> {
        self.value
    }

    /// The tick at which the stored value was written (zero before any write).
    pub closed spec fn written_at(&self) -> u32 {
        self.cached_at
    }

    /// How many ticks a written value stays fresh.
    pub closed spec fn lifetime(&self) -> u32 {
        self.ttl
    }

    /// What a read at `now` finds: the stored value while fewer than `ttl`
    /// ticks have passed since it was written, else nothing.
    pub open spec fn fresh_at(&self, now: u32) -> Option<V> {
        match self.stored() {
            Some(v) => if ticks_since(self.written_at(), now) < self.lifetime() {
                Some(v)
            } else {
                None
            },
            None => None,
        }
    }

    /// An empty cache whose entries live `ttl` ticks.
    pub fn new(ttl: u32) -> (cache: Self)
        ensures
            cache.stored() is None,
            cache.written_at() == 0,
            cache.lifetime() == ttl,
    {
        Self { value: None, cached_at: 0, ttl }
    }

    /// Returns the cached value if still fresh at `now`, else `None`.
    pub fn get(&self, now: u32) -> (r: Option<V>)
        ensures
            match (r, self.fresh_at(now)) {
                (Some(got), Some(v)) => cloned(v, got),
                (None, None) => true,
                _ => false,
            },
    {
        match &self.value {
            Some(v) => {
                if now.saturating_sub(self.cached_at) < self.ttl {
                    Some(v.clone())
                } else {
                    None
                }
            },
            None => None,
        }
    }

    /// Stores `value` as written at `now`, replacing any earlier value.
    pub fn set(&mut self, value: V, now: u32)
        ensures
            final(self).stored() == Some(value),
            final(self).written_at() == now,
            final(self).lifetime() == old(self).lifetime(),
    {
        self.value = Some(value);
        self.cached_at = now;
    }
}


/// A cache that was never written finds nothing, at any time.
pub proof fn lemma_empty_cache_misses<V: Clone>(cache: TtlCache<V>, now: u32)
    requires
        cache.stored() is None,
    ensures
        cache.fresh_at(now) is None,
{
}

/// After a write of `value` at `written`, a read at `now` finds `value`
/// exactly while fewer than `ttl` ticks have passed since `written`: the
/// entry is already stale when exactly `ttl` ticks have passed, and a read
/// at a tick before the write counts as no time passed.
pub proof fn lemma_read_after_write<V: Clone>(cache: TtlCache<V>, value: V, written: u32, now: u32)
    requires
        cache.stored() == Some(value),
        cache.written_at() == written,
    ensures
        cache.fresh_at(now) == (if ticks_since(written, now) < cache.lifetime() {
            Some(value)
        } else {
            None
        }),
        now >= written && now - written == cache.lifetime() ==> cache.fresh_at(now) is None,
        now >= written && now - written < cache.lifetime() ==> cache.fresh_at(now) == Some(value),
{
}

/// Once the entry is stale it stays stale at every later tick until the
/// next write.
pub proof fn lemma_stale_stays_stale<V: Clone>(cache: TtlCache<V>, now: u32, later: u32)
    requires
        cache.fresh_at(now) is None,
        now <= later,
    ensures
        cache.fresh_at(later) is None,
{
}

} // verus!
