//! Correlation of DNS answers with network flows, through the resolver cache.

use vstd::prelude::*;
use crate::domain_cache::{
    CacheKey, CachedResolution, DomainCacheEntry, DomainResolverCache, MAX_DURATION_SECS, expiry_of, spec_record,
    spec_resolve,
};

verus! {

pub struct TrafficCorrelator {
    cache: DomainResolverCache,
}

impl TrafficCorrelator {
    pub closed spec fn wf(&self) -> bool {
        &&& self.cache.wf()
        &&& self.cache.ttl() <= MAX_DURATION_SECS
    }

    /// What the correlator remembers: the resolver cache's contents.
    pub closed spec fn remembered(&self) -> Map<CacheKey, CachedResolution> {
        self.cache@
    }

    pub closed spec fn ttl(&self) -> u64 {
        self.cache.ttl()
    }

    pub fn new(ttl_secs: u64) -> (r: TrafficCorrelator)
        requires
            ttl_secs <= MAX_DURATION_SECS,
        ensures
            r.wf(),
            r.remembered() == Map::<CacheKey, CachedResolution>::empty(),
            r.ttl() == ttl_secs,
    {
        TrafficCorrelator { cache: DomainResolverCache::with_ttl(ttl_secs) }
    }

    /// Remembers a DNS answer (`domain` resolved to `ips` at `now`); returns the
    /// cache rows to persist. Each address is also recorded as a correlation
    /// by the caller.
    pub fn on_dns_resolved(&mut self, app_id: Option<u128>, domain: &str, ips: &[String], now: i64) -> (rows: Vec<
        DomainCacheEntry,
    >)
        requires
            old(self).wf(),
            expiry_of(now, old(self).ttl()) <= i64::MAX,
        ensures
            final(self).wf(),
            final(self).ttl() == old(self).ttl(),
            final(self).remembered() == spec_record(
                old(self).remembered(),
                app_id,
                domain@,
                ips@.map_values(|s: String| s@),
                expiry_of(now, old(self).ttl()) as i64,
            ),
            rows@.len() == ips@.len(),
    {
        self.cache.record_dns_strings(app_id, domain, ips, now)
    }

    /// Domain of a flow to `dest_ip` at `now`, when the cache knows it; `None`
    /// leaves the flow to be recorded as uncorrelated traffic.
    pub fn on_traffic(&self, app_id: Option<u128>, dest_ip: &str, now: i64) -> (r: Option<String>)
        requires
            self.wf(),
        ensures
            r.is_some() == spec_resolve(self.remembered(), app_id, dest_ip@, now).is_some(),
            r matches Some(d) ==> spec_resolve(self.remembered(), app_id, dest_ip@, now) == Some(d@),
    {
        self.cache.resolve_ip_to_domain(app_id, dest_ip, now)
    }
}

} // verus!
