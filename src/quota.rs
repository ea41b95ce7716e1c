//! The system of record's view of an organization's quota: its ceiling and
//! the usage counted in the period that the counter was last reset for.

use crate::limiter::{CeilingReading, StoreReading};
use crate::period::Period;
use vstd::prelude::*;

verus! {

/// An organization's quota row. The counter is reset explicitly, by
/// `roll_over`, when a new period starts; until then a counter whose period
/// has passed is stale and is not trusted as this period's usage.
#[derive(Debug)]
pub struct OrganizationQuotaState {
    pub organization_id: u128,
    pub tier: String,
    pub monthly_limit: i64,
    pub current_period_usage: i64,
    pub period_started_at: Period,
}

impl OrganizationQuotaState {
    /// The row as the limiter reads it.
    pub fn store_reading(&self) -> (r: StoreReading)
        ensures
            r == (StoreReading::Counter { usage: self.current_period_usage, period_started: self.period_started_at }),
    {
        StoreReading::Counter { usage: self.current_period_usage, period_started: self.period_started_at }
    }

    /// The ceiling as the limiter reads it; a negative ceiling is no usable one.
    pub fn ceiling_reading(&self) -> (r: CeilingReading)
        ensures
            r == (if self.monthly_limit >= 0 {
                CeilingReading::Limit(self.monthly_limit)
            } else {
                CeilingReading::Missing
            }),
    {
        if self.monthly_limit >= 0 {
            CeilingReading::Limit(self.monthly_limit)
        } else {
            CeilingReading::Missing
        }
    }

    /// Whether the counter still belongs to an earlier period than `now`.
    pub fn needs_rollover(&self, now: &Period) -> (r: bool)
        ensures
            r == (self.period_started_at != *now),
    {
        self.period_started_at != *now
    }

    /// Starts period `now` for this row: the counter goes back to zero, unless
    /// the row already counts `now`.
    pub fn roll_over(&mut self, now: &Period)
        ensures
            final(self).organization_id == old(self).organization_id,
            final(self).tier == old(self).tier,
            final(self).monthly_limit == old(self).monthly_limit,
            final(self).period_started_at == *now,
            final(self).current_period_usage == (if old(self).period_started_at == *now {
                old(self).current_period_usage
            } else {
                0
            }),
    {
        if self.period_started_at != *now {
            self.current_period_usage = 0;
            self.period_started_at = *now;
        }
    }
}

} // verus!
