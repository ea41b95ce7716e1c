use usage_gate::limiter::{decide, Decision};
use usage_gate::period::Period;
use usage_gate::quota::OrganizationQuotaState;
use usage_gate::limiter::{CeilingReading, StoreReading};
use usage_gate::reporter::{OrgLookup, UsageTracker};
use usage_gate::roles::{AuthorizedOrganizationUser, OrganizationRole};

#[test]
fn plan_with_subscription() {
    let r = UsageTracker::new(true).plan(OrgLookup::Found { subscription_item: Some("si_1".to_string()) });
    assert!(r.increment_store);
    assert_eq!(r.billing_item.as_deref(), Some("si_1"));
    assert!(!r.repair_cache);
}

#[test]
fn plan_without_subscription_or_cache() {
    let r = UsageTracker::new(false).plan(OrgLookup::Found { subscription_item: None });
    assert!(r.increment_store);
    assert_eq!(r.billing_item, None);
    assert!(r.repair_cache);
    let r = UsageTracker::new(true).plan(OrgLookup::NotFound);
    assert!(!r.increment_store);
    let r = UsageTracker::new(true).plan(OrgLookup::Unavailable);
    assert!(r.increment_store);
    assert_eq!(r.billing_item, None);
}

#[test]
fn billing_outage_leaves_verdict_alone() {
    let verdict = decide(10, 100);
    let report = UsageTracker::new(true).plan(OrgLookup::Found { subscription_item: Some("si_1".to_string()) });
    // The report to the billing provider fails; nothing feeds that back into the verdict.
    let billing_failed = report.billing_item.is_some();
    assert!(billing_failed);
    assert_eq!(verdict, Decision::Allow);
}

#[test]
fn quota_row_rolls_over_explicitly() {
    let feb = Period { year: 2025, month: 2 };
    let mar = Period { year: 2025, month: 3 };
    let mut q = OrganizationQuotaState {
        organization_id: 1,
        tier: "pro".to_string(),
        monthly_limit: 1000,
        current_period_usage: 640,
        period_started_at: feb,
    };
    assert_eq!(q.store_reading(), StoreReading::Counter { usage: 640, period_started: feb });
    assert!(q.needs_rollover(&mar));
    q.roll_over(&mar);
    assert_eq!(q.current_period_usage, 0);
    assert_eq!(q.period_started_at, mar);
    assert!(!q.needs_rollover(&mar));
    q.current_period_usage = 3;
    q.roll_over(&mar);
    assert_eq!(q.current_period_usage, 3);
    assert_eq!(q.ceiling_reading(), CeilingReading::Limit(1000));
    q.monthly_limit = -1;
    assert_eq!(q.ceiling_reading(), CeilingReading::Missing);
}

#[test]
fn roles_grant_capabilities() {
    let u = |role| AuthorizedOrganizationUser { user_id: 1, email: "a@b.c".to_string(), organization_id: 2, role };
    assert!(u(OrganizationRole::Owner).is_owner());
    assert!(u(OrganizationRole::Admin).is_admin());
    assert!(!u(OrganizationRole::Admin).is_owner());
    assert!(u(OrganizationRole::Developer).can_manage_api_keys());
    assert!(!u(OrganizationRole::Developer).is_admin());
    assert!(!u(OrganizationRole::Member).can_manage_api_keys());
}
