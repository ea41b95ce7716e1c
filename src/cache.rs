//! The usage cache: one counter per organization for the current billing
//! period, whose lifetime ends exactly at the period boundary.

use crate::error::MiddlewareError;
use crate::period::{CivilInstant, Period, seconds_to_period_end, seconds_until_next_period};
use crate::credentials::hex_digit;
use crate::text::digit_char;
use std::collections::HashMap;
use vstd::prelude::*;
use vstd::string::StringExecFns;

verus! {

broadcast use vstd::std_specs::hash::group_hash_axioms;

/// One organization's counter: the period it counts, the count, and when and
/// with which lifetime the period's first write made it.
#[derive(Clone, Copy, Debug, PartialEq, Eq, Structural)]
pub struct CacheEntry {
    pub period: Period,
    pub count: i64,
    pub written_at: CivilInstant,
    pub ttl_seconds: u64,
}

impl CacheEntry {
    /// The entry lives from its first write to the first instant of the next period.
    pub open spec fn wf(self) -> bool {
        &&& self.written_at.wf()
        &&& self.written_at.period() == self.period
        &&& self.ttl_seconds as int == seconds_to_period_end(self.written_at)
        &&& self.count >= 0
    }
}

/// The count that `m` holds for `org` in period `p`: an entry of an earlier
/// period has expired and counts as absent.
pub open spec fn live_count(m: Map<u128, CacheEntry>, org: u128, p: Period) -> Option<i64> {
    if m.contains_key(org) && m[org].period == p {
        Some(m[org].count)
    } else {
        None
    }
}

/// The cache after one increment for `org` at `now`; the first increment of a
/// period starts a fresh entry with the lifetime that ends at the period boundary.
pub open spec fn incremented(m: Map<u128, CacheEntry>, org: u128, now: CivilInstant) -> Map<u128, CacheEntry> {
    match live_count(m, org, now.period()) {
        Some(c) => m.insert(org, CacheEntry { count: (c + 1) as i64, ..m[org] }),
        None => m.insert(
            org,
            CacheEntry {
                period: now.period(),
                count: 1,
                written_at: now,
                ttl_seconds: seconds_to_period_end(now) as u64,
            },
        ),
    }
}

/// The cache after `set` of `count` for `org` at `now`.
pub open spec fn overwritten(m: Map<u128, CacheEntry>, org: u128, count: i64, now: CivilInstant) -> Map<u128, CacheEntry> {
    m.insert(
        org,
        CacheEntry {
            period: now.period(),
            count,
            written_at: now,
            ttl_seconds: seconds_to_period_end(now) as u64,
        },
    )
}

/// The per-organization usage counters of the current billing period.
pub struct UsageCache {
    entries: HashMap<u128, CacheEntry>,
}

impl View for UsageCache {
    type V = Map<u128, CacheEntry>;

    closed spec fn view(&self) -> Map<u128, CacheEntry> {
        self.entries@
    }
}

impl UsageCache {
    pub open spec fn wf(&self) -> bool {
        forall|org: u128| #[trigger] self@.contains_key(org) ==> self@[org].wf()
    }

    pub fn new() -> (r: UsageCache)
        ensures
            r@ == Map::<u128, CacheEntry>::empty(),
            r.wf(),
    {
        UsageCache { entries: HashMap::new() }
    }

    /// The count of `org` in the period of `now`, if there is one.
    pub fn peek(&self, org: u128, now: &CivilInstant) -> (r: Option<i64>)
        ensures
            r == live_count(self@, org, now.period()),
    {
        match self.entries.get(&org) {
            Some(e) => if e.period == now.current_period() {
                Some(e.count)
            } else {
                None
            },
            None => None,
        }
    }

    /// Adds one to the count of `org` in the period of `now` and returns the new
    /// count; a count that cannot grow is refused and left as it is.
    pub fn increment(&mut self, org: u128, now: &CivilInstant) -> (r: Result<i64, MiddlewareError>)
        requires
            old(self).wf(),
            now.wf(),
        ensures
            final(self).wf(),
            match live_count(old(self)@, org, now.period()) {
                Some(c) if c == i64::MAX => r is Err && final(self)@ == old(self)@,
                Some(c) => r == Ok::<i64, MiddlewareError>((c + 1) as i64) && final(self)@ == incremented(old(self)@, org, *now),
                None => r == Ok::<i64, MiddlewareError>(1) && final(self)@ == incremented(old(self)@, org, *now),
            },
    {
        let current = self.peek(org, now);
        match current {
            Some(c) => {
                if c == i64::MAX {
                    return Err(MiddlewareError::CacheError("increment would overflow".to_owned()));
                }
                let e = *self.entries.get(&org).unwrap();
                let updated = CacheEntry { count: c + 1, ..e };
                self.entries.insert(org, updated);
                Ok(c + 1)
            },
            None => {
                let ttl = seconds_until_next_period(now);
                let fresh = CacheEntry {
                    period: now.current_period(),
                    count: 1,
                    written_at: *now,
                    ttl_seconds: ttl,
                };
                self.entries.insert(org, fresh);
                Ok(1)
            },
        }
    }

    /// Replaces the count of `org` with `count`, with a lifetime that ends at
    /// the boundary of the period of `now`.
    pub fn set(&mut self, org: u128, count: i64, now: &CivilInstant)
        requires
            old(self).wf(),
            now.wf(),
            count >= 0,
        ensures
            final(self).wf(),
            final(self)@ == overwritten(old(self)@, org, count, *now),
    {
        let ttl = seconds_until_next_period(now);
        let fresh = CacheEntry { period: now.current_period(), count, written_at: *now, ttl_seconds: ttl };
        assert(fresh.wf());
        self.entries.insert(org, fresh);
        assert(self@ == old(self)@.insert(org, fresh));
    }

    /// The lifetime that the counter of `org` was given when its period's first
    /// write made it, if it has an entry.
    pub fn ttl_of(&self, org: u128) -> (r: Option<u64>)
        ensures
            r == (if self@.contains_key(org) { Some(self@[org].ttl_seconds) } else { None::<u64> }),
    {
        match self.entries.get(&org) {
            Some(e) => Some(e.ttl_seconds),
            None => None,
        }
    }
}

/// The lifetime to give a counter that an increment at `now` brought to
/// `new_count`: only the period's first increment sets one.
pub fn expiry_after_increment(new_count: i64, now: &CivilInstant) -> (r: Option<u64>)
    requires
        now.wf(),
    ensures
        r == (if new_count == 1 { Some(seconds_to_period_end(*now) as u64) } else { None::<u64> }),
{
    if new_count == 1 {
        Some(seconds_until_next_period(now))
    } else {
        None
    }
}

/// `YYYY-MM`: the label of a period whose year has at most four digits.
pub open spec fn period_text(p: Period) -> Seq<char> {
    let y = p.year as int;
    let m = p.month as int;
    seq![
        digit_char(y / 1000),
        digit_char(y / 100 % 10),
        digit_char(y / 10 % 10),
        digit_char(y % 10),
        '-',
        digit_char(m / 10),
        digit_char(m % 10),
    ]
}

/// The hex digit of `id` at position `k`, counting from the most significant.
pub open spec fn uuid_nibble(id: u128, k: int) -> int {
    (id as int / vstd::arithmetic::power::pow(16, (31 - k) as nat)) % 16
}

/// Position among the 32 hex digits of character `i` of the hyphenated form.
pub open spec fn uuid_digit_index(i: int) -> int {
    if i < 8 {
        i
    } else if i < 13 {
        i - 1
    } else if i < 18 {
        i - 2
    } else if i < 23 {
        i - 3
    } else {
        i - 4
    }
}

/// The hyphenated lowercase form of a UUID, `8-4-4-4-12` hex digits, most
/// significant first.
pub open spec fn uuid_text(id: u128) -> Seq<char> {
    Seq::new(
        36,
        |i: int|
            if i == 8 || i == 13 || i == 18 || i == 23 {
                '-'
            } else {
                hex_digit(uuid_nibble(id, uuid_digit_index(i)))
            },
    )
}

/// Relies on chrono's `%Y-%m` formatting of a date: a year in 0..=9999 is
/// written with four digits, the month with two.
#[verifier::external_body]
fn period_label(p: &Period) -> (r: String)
    requires
        p.wf(),
    ensures
        0 <= p.year <= 9999 ==> r@ == period_text(*p),
{
    match chrono::NaiveDate::from_ymd_opt(p.year, p.month, 1) {
        Some(d) => d.format("%Y-%m").to_string(),
        None => String::new(),
    }
}

/// Relies on uuid's `Uuid::from_u128` and its `Display`: the hyphenated
/// lowercase form, with the integer's most significant byte first.
#[verifier::external_body]
fn organization_text(id: u128) -> (r: String)
    ensures
        r@ == uuid_text(id),
{
    uuid::Uuid::from_u128(id).to_string()
}

/// The cache key of an organization's counter for period `p`.
pub fn usage_cache_key(organization_id: u128, p: &Period) -> (r: String)
    requires
        p.wf(),
    ensures
        0 <= p.year <= 9999 ==> r@ == "usage:monthly:"@ + period_text(*p) + ":"@ + uuid_text(organization_id),
{
    let mut k = "usage:monthly:".to_owned();
    let label = period_label(p);
    k.append(label.as_str());
    k.append(":");
    let org = organization_text(organization_id);
    k.append(org.as_str());
    k
}

/// The cache after increments for `org` at each of `times`, in order.
pub open spec fn after_increments(m: Map<u128, CacheEntry>, org: u128, times: Seq<CivilInstant>) -> Map<u128, CacheEntry>
    decreases times.len(),
{
    if times.len() == 0 {
        m
    } else {
        incremented(after_increments(m, org, times.drop_last()), org, times.last())
    }
}

/// After `n` increments for an organization within one period that started
/// with no count for it, the cache holds exactly `n` for it.
pub proof fn lemma_count_equals_increments(m: Map<u128, CacheEntry>, org: u128, p: Period, times: Seq<CivilInstant>)
    requires
        live_count(m, org, p) is None,
        times.len() > 0,
        forall|i: int| 0 <= i < times.len() ==> (#[trigger] times[i]).period() == p,
        times.len() <= i64::MAX,
    ensures
        live_count(after_increments(m, org, times), org, p) == Some(times.len() as i64),
    decreases times.len(),
{
    let rest = times.drop_last();
    assert(times.last() == times[times.len() - 1]);
    if rest.len() > 0 {
        assert forall|i: int| 0 <= i < rest.len() implies (#[trigger] rest[i]).period() == p by {
            assert(rest[i] == times[i]);
        }
        lemma_count_equals_increments(m, org, p, rest);
    } else {
        assert(after_increments(m, org, rest) == m);
    }
}

/// Every counter, from its first write on, lives exactly until the first
/// instant of the calendar month after the one it was written in.
pub proof fn lemma_ttl_ends_at_period_boundary(c: UsageCache, org: u128)
    requires
        c.wf(),
        c@.contains_key(org),
    ensures
        c@[org].ttl_seconds as int == seconds_to_period_end(c@[org].written_at),
        c@[org].written_at.period() == c@[org].period,
{
}

} // verus!
