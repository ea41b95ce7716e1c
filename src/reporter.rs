//! The usage reporter: after a request is admitted, one unit of usage is
//! accounted for in the cache, the system of record and the billing provider.
//! The two slow writes run apart and may each fail without undoing the other.

use vstd::prelude::*;

verus! {

/// What looking up the organization for reporting found.
#[derive(Debug)]
pub enum OrgLookup {
    Found { subscription_item: Option<String> },
    NotFound,
    Unavailable,
}

/// The background work that follows one admitted request.
#[derive(Debug)]
pub struct UsageReport {
    /// Add one to the system of record's counter.
    pub increment_store: bool,
    /// Report one unit to the billing provider against this subscription item.
    pub billing_item: Option<String>,
    /// Re-seed the cache from the billing provider's usage summary.
    pub repair_cache: bool,
}

/// Plans the reporting of one admitted request.
pub struct UsageTracker {
    /// Whether this request's unit already reached the cache.
    pub cache_incremented: bool,
}

impl UsageTracker {
    pub fn new(cache_incremented: bool) -> (r: UsageTracker)
        ensures
            r.cache_incremented == cache_incremented,
    {
        UsageTracker { cache_incremented }
    }

    /// The store's counter is incremented unless the organization is known to
    /// have no row; billing is told only where the organization has a
    /// subscription item; a cache that missed this unit is repaired from the
    /// billing provider.
    pub fn plan(&self, lookup: OrgLookup) -> (r: UsageReport)
        ensures
            r.increment_store == !(lookup is NotFound),
            r.billing_item == (match lookup {
                OrgLookup::Found { subscription_item } => subscription_item,
                _ => None,
            }),
            r.repair_cache == !self.cache_incremented,
    {
        let increment_store = match &lookup {
            OrgLookup::NotFound => false,
            _ => true,
        };
        let billing_item = match lookup {
            OrgLookup::Found { subscription_item } => subscription_item,
            _ => None,
        };
        UsageReport { increment_store, billing_item, repair_cache: !self.cache_incremented }
    }
}

} // verus!
