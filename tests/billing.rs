use usage_gate::billing::{HttpMethod, StripeClient, SubscriptionInfo};
use usage_gate::limiter::CeilingReading;

fn subscription(metadata: &[(&str, &str)]) -> SubscriptionInfo {
    SubscriptionInfo {
        id: "sub_1".to_string(),
        monthly_limit: 0,
        status: "active".to_string(),
        metadata: metadata.iter().map(|(k, v)| (k.to_string(), v.to_string())).collect(),
    }
}

#[test]
fn usage_record_request_is_complete() {
    let c = StripeClient::new("SECRET-REDACTED".to_string());
    let r = c.usage_record_request("si_123", 1741595415);
    assert_eq!(r.method, HttpMethod::Post);
    assert_eq!(r.url, "https://api.stripe.com/v1/subscription_items/si_123/usage_records");
    assert_eq!(r.authorization, "Bearer SECRET-REDACTED");
    let form: Vec<(&str, &str)> = r.form.iter().map(|(k, v)| (k.as_str(), v.as_str())).collect();
    assert_eq!(form, vec![("action", "increment"), ("quantity", "1"), ("timestamp", "1741595415")]);
}

#[test]
fn usage_summary_request_reads_back() {
    let c = StripeClient::new("k".to_string());
    let r = c.usage_summary_request("si_9");
    assert_eq!(r.method, HttpMethod::Get);
    assert_eq!(r.url, "https://api.stripe.com/v1/subscription_items/si_9/usage_record_summaries");
    assert_eq!(r.authorization, "Bearer k");
    assert!(r.form.is_empty());
}

#[test]
fn ceiling_from_metadata_parses_integer() {
    assert_eq!(subscription(&[("plan", "pro"), ("monthly_limit", "250")]).ceiling_from_metadata(), CeilingReading::Limit(250));
    assert_eq!(subscription(&[("monthly_limit", "+7")]).ceiling_from_metadata(), CeilingReading::Limit(7));
}

#[test]
fn ceiling_from_metadata_fails_closed() {
    assert_eq!(subscription(&[]).ceiling_from_metadata(), CeilingReading::Missing);
    assert_eq!(subscription(&[("monthly_limit", "lots")]).ceiling_from_metadata(), CeilingReading::Missing);
    assert_eq!(subscription(&[("monthly_limit", " 5")]).ceiling_from_metadata(), CeilingReading::Missing);
    assert_eq!(subscription(&[("monthly_limit", "-5")]).ceiling_from_metadata(), CeilingReading::Missing);
    assert_eq!(
        subscription(&[("monthly_limit", "99999999999999999999")]).ceiling_from_metadata(),
        CeilingReading::Missing
    );
}

#[test]
fn first_monthly_limit_entry_wins() {
    assert_eq!(
        subscription(&[("monthly_limit", "x"), ("monthly_limit", "5")]).ceiling_from_metadata(),
        CeilingReading::Missing
    );
}

#[test]
fn subscription_usage_from_summary() {
    let c = StripeClient::new("k".to_string());
    let body = r#"{"object":"list","data":[{"id":"sis_1","total_usage":321},{"total_usage":5}]}"#;
    assert_eq!(c.get_subscription_usage(Some(body)), 321);
    assert_eq!(c.get_subscription_usage(Some(r#"{"data":[]}"#)), 0);
    assert_eq!(c.get_subscription_usage(Some("not json")), 0);
    assert_eq!(c.get_subscription_usage(Some(r#"{"data":[{"total_usage":-2}]}"#)), -2);
    assert_eq!(c.get_subscription_usage(None), 0);
}
