//! The billing provider: the requests that report usage and read it back, and
//! the ceiling carried in a subscription's metadata.

use crate::limiter::CeilingReading;
use crate::text::{decimal, decimal_text, parse_i64, parsed_i64};
use vstd::prelude::*;
use vstd::string::StringExecFns;

verus! {

pub const USAGE_API_BASE: &'static str = "https://api.stripe.com/v1/subscription_items/";

#[derive(Clone, Copy, Debug, PartialEq, Eq, Structural)]
pub enum HttpMethod {
    Get,
    Post,
}

/// A request to the billing provider, ready to send.
#[derive(Debug)]
pub struct BillingRequest {
    pub method: HttpMethod,
    pub url: String,
    pub authorization: String,
    pub form: Vec<(String, String)>,
}

pub open spec fn pair_views(v: Seq<(String, String)>) -> Seq<(Seq<char>, Seq<char>)> {
    v.map_values(|p: (String, String)| (p.0@, p.1@))
}

/// The first record's `total_usage` in a usage summary body, where the body
/// is JSON and that field is an integer that fits in an `i64`.
pub uninterp spec fn summary_total_usage(body: Seq<char>) -> Option<i64>;

/// Relies on serde_json::from_str and `Value`'s accessors: reads the body as
/// JSON and takes `data[0].total_usage` as an `i64`.
#[verifier::external_body]
fn read_summary_total(body: &str) -> (r: Option<i64>)
    ensures
        r == summary_total_usage(body@),
{
    let v: serde_json::Value = serde_json::from_str(body).ok()?;
    v.get("data")?.as_array()?.first()?.get("total_usage")?.as_i64()
}

/// The billing provider's client: it holds the secret the requests carry.
#[derive(Debug)]
pub struct StripeClient {
    secret_key: String,
}

impl StripeClient {
    pub closed spec fn key(&self) -> Seq<char> {
        self.secret_key@
    }

    pub fn new(secret_key: String) -> (r: StripeClient)
        ensures
            r.key() == secret_key@,
    {
        StripeClient { secret_key }
    }

    fn bearer(&self) -> (r: String)
        ensures
            r@ == "Bearer "@ + self.key(),
    {
        let mut b = "Bearer ".to_owned();
        b.append(self.secret_key.as_str());
        b
    }

    /// The request that records one unit of usage against a subscription item at `timestamp`.
    pub fn usage_record_request(&self, subscription_item_id: &str, timestamp: i64) -> (r: BillingRequest)
        ensures
            r.method == HttpMethod::Post,
            r.url@ == USAGE_API_BASE@ + subscription_item_id@ + "/usage_records"@,
            r.authorization@ == "Bearer "@ + self.key(),
            pair_views(r.form@) == seq![
                ("action"@, "increment"@),
                ("quantity"@, "1"@),
                ("timestamp"@, decimal_text(timestamp as int)),
            ],
    {
        let mut url = USAGE_API_BASE.to_owned();
        url.append(subscription_item_id);
        url.append("/usage_records");
        let mut form: Vec<(String, String)> = Vec::new();
        form.push(("action".to_owned(), "increment".to_owned()));
        form.push(("quantity".to_owned(), "1".to_owned()));
        form.push(("timestamp".to_owned(), decimal(timestamp as i128)));
        let r = BillingRequest { method: HttpMethod::Post, url, authorization: self.bearer(), form };
        assert(pair_views(r.form@) =~= seq![
            ("action"@, "increment"@),
            ("quantity"@, "1"@),
            ("timestamp"@, decimal_text(timestamp as int)),
        ]);
        r
    }

    /// The usage that a usage summary reports; zero where the summary could not
    /// be fetched (`None`) or is not the expected JSON.
    pub fn get_subscription_usage(&self, summary: Option<&str>) -> (r: i64)
        ensures
            r == (match summary {
                Some(body) => match summary_total_usage(body@) {
                    Some(v) => v,
                    None => 0,
                },
                None => 0,
            }),
    {
        match summary {
            Some(body) => match read_summary_total(body) {
                Some(v) => v,
                None => 0,
            },
            None => 0,
        }
    }

    /// The request that reads back the usage recorded against a subscription item.
    pub fn usage_summary_request(&self, subscription_item_id: &str) -> (r: BillingRequest)
        ensures
            r.method == HttpMethod::Get,
            r.url@ == USAGE_API_BASE@ + subscription_item_id@ + "/usage_record_summaries"@,
            r.authorization@ == "Bearer "@ + self.key(),
            r.form@.len() == 0,
    {
        let mut url = USAGE_API_BASE.to_owned();
        url.append(subscription_item_id);
        url.append("/usage_record_summaries");
        BillingRequest { method: HttpMethod::Get, url, authorization: self.bearer(), form: Vec::new() }
    }
}

/// A subscription as the billing provider describes it.
#[derive(Debug)]
pub struct SubscriptionInfo {
    pub id: String,
    pub monthly_limit: i64,
    pub status: String,
    pub metadata: Vec<(String, String)>,
}

/// The position of the first metadata entry from `i` on whose key is `key`.
pub open spec fn first_key_from(md: Seq<(Seq<char>, Seq<char>)>, key: Seq<char>, i: int) -> Option<int>
    decreases md.len() - i,
{
    if i < 0 || i >= md.len() {
        None
    } else if md[i].0 == key {
        Some(i)
    } else {
        first_key_from(md, key, i + 1)
    }
}

/// The ceiling that metadata states under `monthly_limit`: a non-negative
/// integer, or no usable ceiling where the entry is absent or is no such integer.
pub open spec fn metadata_ceiling(md: Seq<(Seq<char>, Seq<char>)>) -> CeilingReading {
    match first_key_from(md, "monthly_limit"@, 0) {
        Some(i) => match parsed_i64(md[i].1) {
            Some(v) => if v >= 0 { CeilingReading::Limit(v) } else { CeilingReading::Missing },
            None => CeilingReading::Missing,
        },
        None => CeilingReading::Missing,
    }
}

impl SubscriptionInfo {
    /// The ceiling stated in the subscription's metadata.
    pub fn ceiling_from_metadata(&self) -> (r: CeilingReading)
        ensures
            r == metadata_ceiling(pair_views(self.metadata@)),
    {
        let key = "monthly_limit".to_owned();
        let mut i: usize = 0;
        while i < self.metadata.len()
            invariant
                i <= self.metadata@.len(),
                key@ == "monthly_limit"@,
                first_key_from(pair_views(self.metadata@), key@, 0) == first_key_from(
                    pair_views(self.metadata@),
                    key@,
                    i as int,
                ),
            decreases self.metadata@.len() - i,
        {
            let entry = &self.metadata[i];
            if entry.0 == key {
                return match parse_i64(entry.1.as_str()) {
                    Some(v) => if v >= 0 { CeilingReading::Limit(v) } else { CeilingReading::Missing },
                    None => CeilingReading::Missing,
                };
            }
            i = i + 1;
        }
        CeilingReading::Missing
    }
}

} // verus!
