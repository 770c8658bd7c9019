//! The `CopyTrade` namespace.

use std::sync::Arc;
use vstd::prelude::*;
use crate::client::{ApiRequest, HttpCore, CallerParams, BodyView, RequestBody};
use crate::query::{no_pairs};
use crate::text::{decimal_int, i64_to_text, concat2};

verus! {

/// Robinhood Chain copy-trade rules — push when a wallet you follow trades.
///
/// Quotas are per chain; sizes are ETH and there is no market-cap band.
/// Every method here is PRO+.
#[derive(Debug, Clone)]
pub struct CopyTrade {
    pub core: Arc<HttpCore>,
}

impl CopyTrade {
    /// Your copy-trade rules (`GET /rhc/copytrade/subscriptions`), newest first.
    pub fn list(&self) -> (r: ApiRequest)
        ensures
            r@ == self.core.get_plan("/rhc/copytrade/subscriptions"@, Seq::empty(), CallerParams::Absent),
    {
        self.core.get("/rhc/copytrade/subscriptions", no_pairs(), CallerParams::Absent)
    }

    /// Create a copy-trade rule (`POST /rhc/copytrade/subscriptions`); the
    /// caller's params are the JSON body. The response carries `webhook_secret`
    /// once.
    pub fn create(&self) -> (r: ApiRequest)
        ensures
            r@ == self.core.post_plan("/rhc/copytrade/subscriptions"@, BodyView::Empty, CallerParams::JsonBody),
    {
        self.core.post("/rhc/copytrade/subscriptions", RequestBody::Empty, CallerParams::JsonBody)
    }

    /// Fetch one copy-trade rule (`GET /rhc/copytrade/subscriptions/{id}`); `id` is
    /// the numeric rule id.
    pub fn get(&self, id: i64) -> (r: ApiRequest)
        ensures
            r@ == self.core.get_plan("/rhc/copytrade/subscriptions/"@ + decimal_int(id as int), Seq::empty(), CallerParams::Absent),
    {
        let id_text = i64_to_text(id);
        let path = concat2("/rhc/copytrade/subscriptions/", id_text.as_str());
        self.core.get(path.as_str(), no_pairs(), CallerParams::Absent)
    }

    /// Partially update a copy-trade rule (`PATCH
    /// /rhc/copytrade/subscriptions/{id}`); the caller's params are the JSON body.
    pub fn update(&self, id: i64) -> (r: ApiRequest)
        ensures
            r@ == self.core.patch_plan("/rhc/copytrade/subscriptions/"@ + decimal_int(id as int), BodyView::Empty, CallerParams::JsonBody),
    {
        let id_text = i64_to_text(id);
        let path = concat2("/rhc/copytrade/subscriptions/", id_text.as_str());
        self.core.patch(path.as_str(), RequestBody::Empty, CallerParams::JsonBody)
    }

    /// Delete a copy-trade rule (`DELETE /rhc/copytrade/subscriptions/{id}`); its
    /// fired signals cascade.
    pub fn delete(&self, id: i64) -> (r: ApiRequest)
        ensures
            r@ == self.core.delete_plan("/rhc/copytrade/subscriptions/"@ + decimal_int(id as int)),
    {
        let id_text = i64_to_text(id);
        let path = concat2("/rhc/copytrade/subscriptions/", id_text.as_str());
        self.core.delete(path.as_str())
    }

    /// Fire history for your copy-trade rules (`GET /rhc/copytrade/signals`),
    /// retained 7 days. The caller's params go into the query string.
    pub fn signals(&self) -> (r: ApiRequest)
        ensures
            r@ == self.core.get_plan("/rhc/copytrade/signals"@, Seq::empty(), CallerParams::Query),
    {
        self.core.get("/rhc/copytrade/signals", no_pairs(), CallerParams::Query)
    }
}

} // verus!
