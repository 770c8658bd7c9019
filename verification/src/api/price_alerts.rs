//! The `PriceAlerts` namespace.

use std::sync::Arc;
use vstd::prelude::*;
use crate::client::{ApiRequest, HttpCore, CallerParams, BodyView, RequestBody};
use crate::query::{no_pairs};
use crate::text::{decimal_int, i64_to_text, concat2};

verus! {

/// Robinhood Chain price alerts — push when a token you picked drops, and
/// optionally again when it bounces back. RHC alerts are polled (~15s), not
/// sub-second. Every method here is PRO+.
#[derive(Debug, Clone)]
pub struct PriceAlerts {
    pub core: Arc<HttpCore>,
}

impl PriceAlerts {
    /// Your price alerts (`GET /rhc/price-alerts`), newest first.
    pub fn list(&self) -> (r: ApiRequest)
        ensures
            r@ == self.core.get_plan("/rhc/price-alerts"@, Seq::empty(), CallerParams::Absent),
    {
        self.core.get("/rhc/price-alerts", no_pairs(), CallerParams::Absent)
    }

    /// Create a price alert (`POST /rhc/price-alerts`); the caller's params are
    /// the JSON body.
    pub fn create(&self) -> (r: ApiRequest)
        ensures
            r@ == self.core.post_plan("/rhc/price-alerts"@, BodyView::Empty, CallerParams::JsonBody),
    {
        self.core.post("/rhc/price-alerts", RequestBody::Empty, CallerParams::JsonBody)
    }

    /// Fetch one price alert (`GET /rhc/price-alerts/{id}`); `id` is the numeric
    /// alert id.
    pub fn get(&self, id: i64) -> (r: ApiRequest)
        ensures
            r@ == self.core.get_plan("/rhc/price-alerts/"@ + decimal_int(id as int), Seq::empty(), CallerParams::Absent),
    {
        let id_text = i64_to_text(id);
        let path = concat2("/rhc/price-alerts/", id_text.as_str());
        self.core.get(path.as_str(), no_pairs(), CallerParams::Absent)
    }

    /// Update a price alert (`PATCH /rhc/price-alerts/{id}`); only `name`,
    /// `delivery_mode`, `webhook_url` and `is_active` are mutable.
    pub fn update(&self, id: i64) -> (r: ApiRequest)
        ensures
            r@ == self.core.patch_plan("/rhc/price-alerts/"@ + decimal_int(id as int), BodyView::Empty, CallerParams::JsonBody),
    {
        let id_text = i64_to_text(id);
        let path = concat2("/rhc/price-alerts/", id_text.as_str());
        self.core.patch(path.as_str(), RequestBody::Empty, CallerParams::JsonBody)
    }

    /// Delete a price alert (`DELETE /rhc/price-alerts/{id}`); its events cascade.
    pub fn delete(&self, id: i64) -> (r: ApiRequest)
        ensures
            r@ == self.core.delete_plan("/rhc/price-alerts/"@ + decimal_int(id as int)),
    {
        let id_text = i64_to_text(id);
        let path = concat2("/rhc/price-alerts/", id_text.as_str());
        self.core.delete(path.as_str())
    }

    /// Dip and recovery events for your price alerts (`GET
    /// /rhc/price-alerts/events`), retained 30 days. The caller's params go into
    /// the query string.
    pub fn events(&self) -> (r: ApiRequest)
        ensures
            r@ == self.core.get_plan("/rhc/price-alerts/events"@, Seq::empty(), CallerParams::Query),
    {
        self.core.get("/rhc/price-alerts/events", no_pairs(), CallerParams::Query)
    }
}

} // verus!
