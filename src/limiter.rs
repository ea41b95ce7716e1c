//! The quota limiter: for each request it reads the usage (cache first, then
//! the system of record, then the billing provider), reads the ceiling, and
//! decides. Infrastructure failures let the request through; only a measured
//! usage at or over the ceiling, or a ceiling that is not configured, denies it.

use crate::error::MiddlewareError;
use crate::period::Period;
use crate::text::{decimal, decimal_text};
use vstd::prelude::*;
use vstd::string::StringExecFns;

verus! {

/// Why a request is refused.
#[derive(Clone, Copy, Debug, PartialEq, Eq, Structural)]
pub enum DenyReason {
    QuotaExceeded { usage: i64, limit: i64 },
    MissingCredential,
    InvalidCredential,
    Expired,
    Misconfigured,
}

/// The verdict on a request.
#[derive(Clone, Copy, Debug, PartialEq, Eq, Structural)]
pub enum Decision {
    Allow,
    Deny(DenyReason),
}

/// The message of a quota denial: it names the measured usage and the ceiling.
pub open spec fn limit_message(usage: int, limit: int) -> Seq<char> {
    "Usage limit exceeded. Current usage: "@ + decimal_text(usage) + ", Tier limit: "@ + decimal_text(limit)
        + ". Please upgrade your subscription."@
}

/// The message of a quota denial.
pub fn limit_exceeded_message(usage: i64, limit: i64) -> (r: String)
    ensures
        r@ == limit_message(usage as int, limit as int),
{
    let mut m = "Usage limit exceeded. Current usage: ".to_owned();
    let u = decimal(usage as i128);
    m.append(u.as_str());
    m.append(", Tier limit: ");
    let l = decimal(limit as i128);
    m.append(l.as_str());
    m.append(". Please upgrade your subscription.");
    m
}

impl DenyReason {
    /// The error that reports this denial to the transport layer.
    pub fn to_error(&self) -> (r: MiddlewareError)
        ensures
            match *self {
                DenyReason::QuotaExceeded { usage, limit } => r matches MiddlewareError::UsageLimitExceeded(m)
                    && m@ == limit_message(usage as int, limit as int),
                DenyReason::MissingCredential => r matches MiddlewareError::MissingToken,
                DenyReason::InvalidCredential => r matches MiddlewareError::InvalidToken(_),
                DenyReason::Expired => r matches MiddlewareError::ExpiredToken,
                DenyReason::Misconfigured => r matches MiddlewareError::ConfigError(_),
            },
    {
        match self {
            DenyReason::QuotaExceeded { usage, limit } => MiddlewareError::UsageLimitExceeded(
                limit_exceeded_message(*usage, *limit),
            ),
            DenyReason::MissingCredential => MiddlewareError::MissingToken,
            DenyReason::InvalidCredential => MiddlewareError::InvalidToken("Invalid API key".to_owned()),
            DenyReason::Expired => MiddlewareError::ExpiredToken,
            DenyReason::Misconfigured => MiddlewareError::ConfigError("no usable monthly limit is configured".to_owned()),
        }
    }
}

pub open spec fn decision_for(usage: i64, limit: i64) -> Decision {
    if usage >= limit {
        Decision::Deny(DenyReason::QuotaExceeded { usage, limit })
    } else {
        Decision::Allow
    }
}

/// Denies exactly when the usage measured before this request has reached the
/// ceiling: the request that brings usage up to the ceiling is the last one let through.
pub fn decide(usage: i64, monthly_limit: i64) -> (r: Decision)
    ensures
        r == decision_for(usage, monthly_limit),
        r is Deny <==> usage >= monthly_limit,
{
    if usage >= monthly_limit {
        Decision::Deny(DenyReason::QuotaExceeded { usage, limit: monthly_limit })
    } else {
        Decision::Allow
    }
}

/// Whether usage lies above 80% of the ceiling.
pub open spec fn near_limit(usage: int, limit: int) -> bool {
    5 * usage > 4 * limit
}

/// Whether an admitted request should trigger a threshold notification.
pub fn should_notify(usage: i64, monthly_limit: i64) -> (r: bool)
    ensures
        r == (usage < monthly_limit && near_limit(usage as int, monthly_limit as int)),
{
    usage < monthly_limit && 5 * (usage as i128) > 4 * (monthly_limit as i128)
}

/// What the usage cache answered.
#[derive(Clone, Copy, Debug, PartialEq, Eq, Structural)]
pub enum CacheReading {
    Hit(i64),
    Miss,
    Unavailable,
}

/// What the system of record answered for the organization's counter.
#[derive(Clone, Copy, Debug, PartialEq, Eq, Structural)]
pub enum StoreReading {
    Counter { usage: i64, period_started: Period },
    Missing,
    Unavailable,
}

/// What the ceiling lookup answered: `Missing` where no usable ceiling is configured.
#[derive(Clone, Copy, Debug, PartialEq, Eq, Structural)]
pub enum CeilingReading {
    Limit(i64),
    Missing,
    Unavailable,
}

/// An answer from one of the limiter's collaborators. The billing provider's
/// answer is `None` where it could not be had.
#[derive(Clone, Copy, Debug, PartialEq, Eq, Structural)]
pub enum LimiterEvent {
    Cache(CacheReading),
    Store(StoreReading),
    Provider(Option<i64>),
    Ceiling(CeilingReading),
}

/// Where a request's limiter stands; each reading state names the read that
/// the caller performs next.
#[derive(Clone, Copy, Debug, PartialEq, Eq, Structural)]
pub enum LimiterState {
    ReadCache,
    ReadStore,
    ReadProvider,
    ReadCeiling { usage: i64 },
    Done(Decision),
}

/// The outcome of one step: the next state, a usage value to write back to
/// the cache, and whether to notify that the organization nears its ceiling.
#[derive(Clone, Copy, Debug, PartialEq, Eq, Structural)]
pub struct LimiterStep {
    pub next: LimiterState,
    pub write_cache: Option<i64>,
    pub notify: bool,
}

pub open spec fn stay(s: LimiterState) -> LimiterStep {
    LimiterStep { next: s, write_cache: None, notify: false }
}

/// Usage found by a slow-path read: it is then written back to the cache.
pub open spec fn found(usage: i64) -> LimiterStep {
    LimiterStep { next: LimiterState::ReadCeiling { usage }, write_cache: Some(usage), notify: false }
}

/// One transition of the limiter in billing period `p`. An answer that does not
/// belong to the current state leaves it unchanged.
pub open spec fn limiter_step(s: LimiterState, e: LimiterEvent, p: Period) -> LimiterStep {
    match (s, e) {
        (LimiterState::ReadCache, LimiterEvent::Cache(c)) => match c {
            CacheReading::Hit(u) => LimiterStep { next: LimiterState::ReadCeiling { usage: u }, write_cache: None, notify: false },
            _ => stay(LimiterState::ReadStore),
        },
        (LimiterState::ReadStore, LimiterEvent::Store(r)) => match r {
            StoreReading::Counter { usage, period_started } => if period_started == p && usage >= 0 {
                found(usage)
            } else {
                stay(LimiterState::ReadProvider)
            },
            _ => stay(LimiterState::ReadProvider),
        },
        (LimiterState::ReadProvider, LimiterEvent::Provider(v)) => match v {
            Some(u) => if u >= 0 { found(u) } else { found(0) },
            None => found(0),
        },
        (LimiterState::ReadCeiling { usage }, LimiterEvent::Ceiling(c)) => match c {
            CeilingReading::Limit(l) => LimiterStep {
                next: LimiterState::Done(decision_for(usage, l)),
                write_cache: None,
                notify: usage < l && near_limit(usage as int, l as int),
            },
            CeilingReading::Missing => stay(LimiterState::Done(Decision::Deny(DenyReason::Misconfigured))),
            CeilingReading::Unavailable => stay(LimiterState::Done(Decision::Allow)),
        },
        _ => stay(s),
    }
}

/// Performs one transition of the limiter in billing period `period`.
pub fn step(state: &LimiterState, event: &LimiterEvent, period: &Period) -> (r: LimiterStep)
    ensures
        r == limiter_step(*state, *event, *period),
{
    let here = *state;
    match (here, *event) {
        (LimiterState::ReadCache, LimiterEvent::Cache(c)) => match c {
            CacheReading::Hit(u) => LimiterStep { next: LimiterState::ReadCeiling { usage: u }, write_cache: None, notify: false },
            _ => LimiterStep { next: LimiterState::ReadStore, write_cache: None, notify: false },
        },
        (LimiterState::ReadStore, LimiterEvent::Store(r)) => match r {
            StoreReading::Counter { usage, period_started } => if period_started == *period && usage >= 0 {
                LimiterStep { next: LimiterState::ReadCeiling { usage }, write_cache: Some(usage), notify: false }
            } else {
                LimiterStep { next: LimiterState::ReadProvider, write_cache: None, notify: false }
            },
            _ => LimiterStep { next: LimiterState::ReadProvider, write_cache: None, notify: false },
        },
        (LimiterState::ReadProvider, LimiterEvent::Provider(v)) => {
            let u = match v {
                Some(u) => if u >= 0 { u } else { 0 },
                None => 0,
            };
            LimiterStep { next: LimiterState::ReadCeiling { usage: u }, write_cache: Some(u), notify: false }
        },
        (LimiterState::ReadCeiling { usage }, LimiterEvent::Ceiling(c)) => match c {
            CeilingReading::Limit(l) => LimiterStep {
                next: LimiterState::Done(decide(usage, l)),
                write_cache: None,
                notify: should_notify(usage, l),
            },
            CeilingReading::Missing => LimiterStep {
                next: LimiterState::Done(Decision::Deny(DenyReason::Misconfigured)),
                write_cache: None,
                notify: false,
            },
            CeilingReading::Unavailable => LimiterStep { next: LimiterState::Done(Decision::Allow), write_cache: None, notify: false },
        },
        _ => LimiterStep { next: here, write_cache: None, notify: false },
    }
}

/// A request's limiter: the state machine of `limiter_step`, run in one billing period.
pub struct UsageLimiter {
    state: LimiterState,
    period: Period,
}

impl UsageLimiter {
    pub closed spec fn current(&self) -> LimiterState {
        self.state
    }

    pub closed spec fn in_period(&self) -> Period {
        self.period
    }

    /// A limiter about to read the cache, for a request in `period`.
    pub fn new(period: Period) -> (r: UsageLimiter)
        ensures
            r.current() == LimiterState::ReadCache,
            r.in_period() == period,
    {
        UsageLimiter { state: LimiterState::ReadCache, period }
    }

    pub fn state(&self) -> (r: LimiterState)
        ensures
            r == self.current(),
    {
        self.state
    }

    /// Feeds one answer to the limiter.
    pub fn handle(&mut self, event: LimiterEvent) -> (r: LimiterStep)
        ensures
            r == limiter_step(old(self).current(), event, old(self).in_period()),
            final(self).current() == r.next,
            final(self).in_period() == old(self).in_period(),
    {
        let r = step(&self.state, &event, &self.period);
        self.state = r.next;
        r
    }

    /// The verdict, once the limiter has reached one.
    pub fn decision(&self) -> (r: Option<Decision>)
        ensures
            r == (match self.current() {
                LimiterState::Done(d) => Some(d),
                _ => None,
            }),
    {
        match self.state {
            LimiterState::Done(d) => Some(d),
            _ => None,
        }
    }
}

proof fn lemma_percentage_bounds(u: int, l: int)
    requires
        u >= 0,
        l > 0,
    ensures
        0 <= u * 100 / l <= u * 100,
{
    assert(0 <= u * 100 / l <= u * 100) by (nonlinear_arith)
        requires
            u >= 0,
            l > 0,
    ;
}

/// The share of the ceiling used, in whole percent, rounded down.
pub fn usage_percentage(usage: i64, limit: i64) -> (r: i128)
    requires
        usage >= 0,
        limit > 0,
    ensures
        r as int == usage as int * 100 / limit as int,
{
    let p = (usage as i128) * 100 / (limit as i128);
    proof {
        lemma_percentage_bounds(usage as int, limit as int);
    }
    p
}

/// The line that reports an organization nearing its ceiling.
pub open spec fn threshold_message(org: Seq<char>, usage: int, limit: int) -> Seq<char> {
    "Organization "@ + org + " has used "@ + decimal_text(usage * 100 / limit) + "% of their monthly limit ("@
        + decimal_text(usage) + "/"@ + decimal_text(limit) + ")"@
}

/// The notification for an organization whose usage passed 80% of its ceiling.
pub fn notify_usage_threshold(organization_name: &str, current_usage: i64, tier_limit: i64) -> (r: String)
    requires
        current_usage >= 0,
        tier_limit > 0,
    ensures
        r@ == threshold_message(organization_name@, current_usage as int, tier_limit as int),
{
    let pct = usage_percentage(current_usage, tier_limit);
    let mut m = "Organization ".to_owned();
    m.append(organization_name);
    m.append(" has used ");
    m.append(decimal(pct).as_str());
    m.append("% of their monthly limit (");
    m.append(decimal(current_usage as i128).as_str());
    m.append("/");
    m.append(decimal(tier_limit as i128).as_str());
    m.append(")");
    m
}

/// The state reached from `s` by the answers `events`, in order.
pub open spec fn run(s: LimiterState, events: Seq<LimiterEvent>, p: Period) -> LimiterState
    decreases events.len(),
{
    if events.len() == 0 {
        s
    } else {
        run(limiter_step(s, events[0], p).next, events.drop_first(), p)
    }
}

/// The usage the limiter settles on, in its order of preference: the cache's
/// count; else the system of record's counter, if it counts this period; else
/// the billing provider's figure, with zero for a missing or negative one.
pub open spec fn resolve_usage(c: CacheReading, s: StoreReading, provider: Option<i64>, p: Period) -> i64 {
    match c {
        CacheReading::Hit(u) => u,
        _ => match s {
            StoreReading::Counter { usage, period_started } if period_started == p && usage >= 0 => usage,
            _ => match provider {
                Some(v) if v >= 0 => v,
                _ => 0,
            },
        },
    }
}

/// The answers that the limiter asks for, in order, before it reads the ceiling.
pub open spec fn usage_answers(c: CacheReading, s: StoreReading, provider: Option<i64>, p: Period) -> Seq<LimiterEvent> {
    match c {
        CacheReading::Hit(_) => seq![LimiterEvent::Cache(c)],
        _ => match s {
            StoreReading::Counter { usage, period_started } if period_started == p && usage >= 0 => seq![
                LimiterEvent::Cache(c),
                LimiterEvent::Store(s),
            ],
            _ => seq![LimiterEvent::Cache(c), LimiterEvent::Store(s), LimiterEvent::Provider(provider)],
        },
    }
}

/// Fed the answers it asks for, the limiter reaches the ceiling read with the
/// usage that the order of preference picks.
pub proof fn lemma_usage_resolution(c: CacheReading, s: StoreReading, provider: Option<i64>, p: Period)
    ensures
        run(LimiterState::ReadCache, usage_answers(c, s, provider, p), p) == (LimiterState::ReadCeiling {
            usage: resolve_usage(c, s, provider, p),
        }),
{
    reveal_with_fuel(run, 4);
    let evs = usage_answers(c, s, provider, p);
    if evs.len() == 1 {
        assert(evs.drop_first() =~= Seq::<LimiterEvent>::empty());
    } else if evs.len() == 2 {
        assert(evs.drop_first()[0] == evs[1]);
        assert(evs.drop_first().drop_first() =~= Seq::<LimiterEvent>::empty());
    } else {
        assert(evs.drop_first()[0] == evs[1]);
        assert(evs.drop_first().drop_first()[0] == evs[2]);
        assert(evs.drop_first().drop_first().drop_first() =~= Seq::<LimiterEvent>::empty());
    }
}

/// With the cache down, the limiter turns to the system of record, and an
/// organization whose recorded usage of this period lies under its ceiling is let through.
pub proof fn lemma_cache_outage_falls_back(usage: i64, limit: i64, p: Period)
    requires
        0 <= usage < limit,
    ensures
        limiter_step(LimiterState::ReadCache, LimiterEvent::Cache(CacheReading::Unavailable), p).next == LimiterState::ReadStore,
        run(
            LimiterState::ReadCache,
            seq![
                LimiterEvent::Cache(CacheReading::Unavailable),
                LimiterEvent::Store(StoreReading::Counter { usage, period_started: p }),
                LimiterEvent::Ceiling(CeilingReading::Limit(limit)),
            ],
            p,
        ) == LimiterState::Done(Decision::Allow),
{
    let evs = seq![
        LimiterEvent::Cache(CacheReading::Unavailable),
        LimiterEvent::Store(StoreReading::Counter { usage, period_started: p }),
        LimiterEvent::Ceiling(CeilingReading::Limit(limit)),
    ];
    reveal_with_fuel(run, 4);
    assert(evs.drop_first().drop_first().drop_first() =~= Seq::<LimiterEvent>::empty());
    assert(evs.drop_first()[0] == evs[1]);
    assert(evs.drop_first().drop_first()[0] == evs[2]);
}

/// With the cache and the system of record both down, the limiter asks the
/// billing provider, and if that fails too it counts the usage as zero: the
/// request is let through under any positive ceiling.
pub proof fn lemma_total_outage_fails_open(limit: i64, p: Period)
    requires
        limit > 0,
    ensures
        run(
            LimiterState::ReadCache,
            seq![
                LimiterEvent::Cache(CacheReading::Unavailable),
                LimiterEvent::Store(StoreReading::Unavailable),
                LimiterEvent::Provider(None),
                LimiterEvent::Ceiling(CeilingReading::Limit(limit)),
            ],
            p,
        ) == LimiterState::Done(Decision::Allow),
{
    let evs = seq![
        LimiterEvent::Cache(CacheReading::Unavailable),
        LimiterEvent::Store(StoreReading::Unavailable),
        LimiterEvent::Provider(None),
        LimiterEvent::Ceiling(CeilingReading::Limit(limit)),
    ];
    reveal_with_fuel(run, 5);
    assert(evs.drop_first().drop_first().drop_first().drop_first() =~= Seq::<LimiterEvent>::empty());
    assert(evs.drop_first()[0] == evs[1]);
    assert(evs.drop_first().drop_first()[0] == evs[2]);
    assert(evs.drop_first().drop_first().drop_first()[0] == evs[3]);
}

/// A ceiling lookup that fails for want of the store lets the request through;
/// one that finds no usable ceiling refuses it.
pub proof fn lemma_ceiling_failures(usage: i64, p: Period)
    ensures
        limiter_step(LimiterState::ReadCeiling { usage }, LimiterEvent::Ceiling(CeilingReading::Unavailable), p).next
            == LimiterState::Done(Decision::Allow),
        limiter_step(LimiterState::ReadCeiling { usage }, LimiterEvent::Ceiling(CeilingReading::Missing), p).next
            == LimiterState::Done(Decision::Deny(DenyReason::Misconfigured)),
{
}

/// A request is denied for its quota if and only if the usage read has reached
/// the ceiling, whichever source the usage came from.
pub proof fn lemma_denied_iff_at_ceiling(usage: i64, limit: i64, p: Period)
    ensures
        (limiter_step(LimiterState::ReadCeiling { usage }, LimiterEvent::Ceiling(CeilingReading::Limit(limit)), p).next
            is Done) && (limiter_step(
            LimiterState::ReadCeiling { usage },
            LimiterEvent::Ceiling(CeilingReading::Limit(limit)),
            p,
        ).next == LimiterState::Done(Decision::Allow) <==> usage < limit),
{
}

} // verus!
