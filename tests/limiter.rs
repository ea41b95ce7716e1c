use usage_gate::cache::UsageCache;
use usage_gate::error::MiddlewareError;
use usage_gate::limiter::{
    decide, limit_exceeded_message, notify_usage_threshold, should_notify, step, usage_percentage, CacheReading,
    CeilingReading, Decision, DenyReason, LimiterEvent, LimiterState, StoreReading, UsageLimiter,
};
use usage_gate::period::{CivilInstant, Period};

const MARCH: Period = Period { year: 2025, month: 3 };

fn run(events: &[LimiterEvent]) -> (UsageLimiter, Vec<Option<i64>>) {
    let mut l = UsageLimiter::new(MARCH);
    let mut writes = Vec::new();
    for e in events {
        writes.push(l.handle(*e).write_cache);
    }
    (l, writes)
}

#[test]
fn allowed_one_below_limit_denied_at_limit() {
    assert_eq!(decide(99, 100), Decision::Allow);
    assert_eq!(decide(100, 100), Decision::Deny(DenyReason::QuotaExceeded { usage: 100, limit: 100 }));
    assert_eq!(decide(150, 100), Decision::Deny(DenyReason::QuotaExceeded { usage: 150, limit: 100 }));
    assert_eq!(decide(0, 0), Decision::Deny(DenyReason::QuotaExceeded { usage: 0, limit: 0 }));
}

#[test]
fn hundred_requests_then_the_next_is_denied() {
    let mut cache = UsageCache::new();
    let now = CivilInstant { year: 2025, month: 3, day: 5, hour: 10, minute: 0, second: 0 };
    let org = 77u128;
    let limit = 100i64;
    for _ in 0..100 {
        let usage = cache.peek(org, &now).unwrap_or(0);
        assert_eq!(decide(usage, limit), Decision::Allow);
        cache.increment(org, &now).unwrap();
    }
    assert_eq!(cache.peek(org, &now), Some(100));
    let d = decide(cache.peek(org, &now).unwrap(), limit);
    let Decision::Deny(reason) = d else { panic!("the request past the ceiling was let through") };
    let MiddlewareError::UsageLimitExceeded(msg) = reason.to_error() else { panic!("wrong error") };
    assert_eq!(msg, "Usage limit exceeded. Current usage: 100, Tier limit: 100. Please upgrade your subscription.");
    assert!(msg.contains("Current usage: 100") && msg.contains("Tier limit: 100"));
}

#[test]
fn cache_hit_goes_straight_to_ceiling() {
    let (l, writes) = run(&[
        LimiterEvent::Cache(CacheReading::Hit(10)),
        LimiterEvent::Ceiling(CeilingReading::Limit(100)),
    ]);
    assert_eq!(l.decision(), Some(Decision::Allow));
    assert_eq!(writes, vec![None, None]);
}

#[test]
fn cache_outage_falls_back_to_store_and_allows() {
    let mut l = UsageLimiter::new(MARCH);
    let s = l.handle(LimiterEvent::Cache(CacheReading::Unavailable));
    assert_eq!(s.next, LimiterState::ReadStore);
    let s = l.handle(LimiterEvent::Store(StoreReading::Counter { usage: 40, period_started: MARCH }));
    assert_eq!(s.write_cache, Some(40));
    let s = l.handle(LimiterEvent::Ceiling(CeilingReading::Limit(100)));
    assert_eq!(s.next, LimiterState::Done(Decision::Allow));
    assert_eq!(l.decision(), Some(Decision::Allow));
}

#[test]
fn stale_store_counter_falls_back_to_provider() {
    let old = Period { year: 2025, month: 2 };
    let (l, writes) = run(&[
        LimiterEvent::Cache(CacheReading::Miss),
        LimiterEvent::Store(StoreReading::Counter { usage: 500, period_started: old }),
        LimiterEvent::Provider(Some(120)),
        LimiterEvent::Ceiling(CeilingReading::Limit(100)),
    ]);
    assert_eq!(writes, vec![None, None, Some(120), None]);
    assert_eq!(l.decision(), Some(Decision::Deny(DenyReason::QuotaExceeded { usage: 120, limit: 100 })));
}

#[test]
fn everything_down_fails_open() {
    let (l, writes) = run(&[
        LimiterEvent::Cache(CacheReading::Unavailable),
        LimiterEvent::Store(StoreReading::Unavailable),
        LimiterEvent::Provider(None),
        LimiterEvent::Ceiling(CeilingReading::Unavailable),
    ]);
    assert_eq!(writes, vec![None, None, Some(0), None]);
    assert_eq!(l.decision(), Some(Decision::Allow));
}

#[test]
fn missing_ceiling_fails_closed() {
    let (l, _) = run(&[LimiterEvent::Cache(CacheReading::Hit(1)), LimiterEvent::Ceiling(CeilingReading::Missing)]);
    assert_eq!(l.decision(), Some(Decision::Deny(DenyReason::Misconfigured)));
    assert!(matches!(DenyReason::Misconfigured.to_error(), MiddlewareError::ConfigError(_)));
}

#[test]
fn out_of_order_answer_is_ignored() {
    let s = step(&LimiterState::ReadCache, &LimiterEvent::Provider(Some(3)), &MARCH);
    assert_eq!(s.next, LimiterState::ReadCache);
    assert_eq!(s.write_cache, None);
}

#[test]
fn negative_provider_usage_counts_as_zero() {
    let s = step(&LimiterState::ReadProvider, &LimiterEvent::Provider(Some(-4)), &MARCH);
    assert_eq!(s.next, LimiterState::ReadCeiling { usage: 0 });
}

#[test]
fn notification_above_eighty_percent() {
    assert!(should_notify(81, 100));
    assert!(!should_notify(80, 100));
    assert!(should_notify(5, 6));
    assert!(!should_notify(100, 100));
    let s = step(&LimiterState::ReadCeiling { usage: 90 }, &LimiterEvent::Ceiling(CeilingReading::Limit(100)), &MARCH);
    assert!(s.notify);
}

#[test]
fn notification_text_and_percentage() {
    assert_eq!(usage_percentage(29, 100), 29);
    assert_eq!(usage_percentage(2, 3), 66);
    assert_eq!(
        notify_usage_threshold("Acme", 85, 100),
        "Organization Acme has used 85% of their monthly limit (85/100)"
    );
}

#[test]
fn limit_message_names_usage_and_ceiling() {
    assert_eq!(
        limit_exceeded_message(-3, 12),
        "Usage limit exceeded. Current usage: -3, Tier limit: 12. Please upgrade your subscription."
    );
}

#[test]
fn denial_reasons_map_to_errors() {
    assert!(matches!(DenyReason::MissingCredential.to_error(), MiddlewareError::MissingToken));
    assert!(matches!(DenyReason::InvalidCredential.to_error(), MiddlewareError::InvalidToken(_)));
    assert!(matches!(DenyReason::Expired.to_error(), MiddlewareError::ExpiredToken));
}
