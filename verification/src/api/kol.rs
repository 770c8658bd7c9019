//! The `Kol` namespace.

use std::sync::Arc;
use vstd::prelude::*;
use crate::client::{ApiRequest, HttpCore, CallerParams, BodyView, RequestBody};
use crate::query::{no_pairs};
use crate::text::{concat2};
use crate::types::{HotTokensParams, KolLeaderboardParams};

verus! {

/// KOL trade-intelligence endpoints on Robinhood Chain — feed, leaderboard,
/// consensus hot-tokens, single-KOL profiles, and the two KOL push rule engines
/// (coordination alerts, first-touch subscriptions).
#[derive(Debug, Clone)]
pub struct Kol {
    pub core: Arc<HttpCore>,
}

impl Kol {
    /// Real-time KOL trade feed (`GET /rhc/kol/feed`, BASIC+). The caller's
    /// `KolFeedParams` go into the query string.
    pub fn feed(&self) -> (r: ApiRequest)
        ensures
            r@ == self.core.get_plan("/rhc/kol/feed"@, Seq::empty(), CallerParams::Query),
    {
        self.core.get("/rhc/kol/feed", no_pairs(), CallerParams::Query)
    }

    /// KOL activity leaderboard (`GET /rhc/kol/leaderboard`, BASIC+): KOLs ranked
    /// by trade count, then net ETH flow, over the chosen window.
    pub fn leaderboard(&self, params: &KolLeaderboardParams) -> (r: ApiRequest)
        ensures
            r@ == self.core.get_plan("/rhc/kol/leaderboard"@, params.query_view(), CallerParams::Absent),
    {
        self.core.get("/rhc/kol/leaderboard", params.query_pairs(), CallerParams::Absent)
    }

    /// Consensus hot-tokens — bought by 2+ KOLs (`GET /rhc/kol/hot-tokens`, BASIC+).
    pub fn hot_tokens(&self, params: &HotTokensParams) -> (r: ApiRequest)
        ensures
            r@ == self.core.get_plan("/rhc/kol/hot-tokens"@, params.query_view(), CallerParams::Absent),
    {
        self.core.get("/rhc/kol/hot-tokens", params.query_pairs(), CallerParams::Absent)
    }

    /// KOL clustering / consensus (`GET /rhc/kol/coordination`, BASIC+). The
    /// caller's `CoordinationParams` go into the query string.
    pub fn coordination(&self) -> (r: ApiRequest)
        ensures
            r@ == self.core.get_plan("/rhc/kol/coordination"@, Seq::empty(), CallerParams::Query),
    {
        self.core.get("/rhc/kol/coordination", no_pairs(), CallerParams::Query)
    }

    /// Earliest KOL entry per token (`GET /rhc/kol/first-touches`, BASIC+). The
    /// caller's `FirstTouchesParams` go into the query string.
    pub fn first_touches(&self) -> (r: ApiRequest)
        ensures
            r@ == self.core.get_plan("/rhc/kol/first-touches"@, Seq::empty(), CallerParams::Query),
    {
        self.core.get("/rhc/kol/first-touches", no_pairs(), CallerParams::Query)
    }

    /// Single KOL profile (`GET /rhc/kol/{wallet}`, BASIC+); `wallet` is an EVM
    /// address (0x, 40 hex). A 404 when the address has no RHC activity.
    pub fn wallet(&self, wallet: &str) -> (r: ApiRequest)
        ensures
            r@ == self.core.get_plan("/rhc/kol/"@ + wallet@, Seq::empty(), CallerParams::Absent),
    {
        let path = concat2("/rhc/kol/", wallet);
        self.core.get(path.as_str(), no_pairs(), CallerParams::Absent)
    }

    /// Your coordination rules (`GET /rhc/kol/coordination/alerts`, PRO+).
    /// Quotas are per chain.
    pub fn coordination_alerts_list(&self) -> (r: ApiRequest)
        ensures
            r@ == self.core.get_plan("/rhc/kol/coordination/alerts"@, Seq::empty(), CallerParams::Absent),
    {
        self.core.get("/rhc/kol/coordination/alerts", no_pairs(), CallerParams::Absent)
    }

    /// Create a coordination rule (`POST /rhc/kol/coordination/alerts`, PRO+);
    /// the caller's params are the JSON body. The response carries
    /// `webhook_secret` once, minted whenever a `webhook_url` was supplied.
    pub fn coordination_alerts_create(&self) -> (r: ApiRequest)
        ensures
            r@ == self.core.post_plan("/rhc/kol/coordination/alerts"@, BodyView::Empty, CallerParams::JsonBody),
    {
        self.core.post("/rhc/kol/coordination/alerts", RequestBody::Empty, CallerParams::JsonBody)
    }

    /// Fetch one coordination rule (`GET /rhc/kol/coordination/alerts/{id}`,
    /// PRO+); `id` is the rule UUID.
    pub fn coordination_alerts_get(&self, id: &str) -> (r: ApiRequest)
        ensures
            r@ == self.core.get_plan("/rhc/kol/coordination/alerts/"@ + id@, Seq::empty(), CallerParams::Absent),
    {
        let path = concat2("/rhc/kol/coordination/alerts/", id);
        self.core.get(path.as_str(), no_pairs(), CallerParams::Absent)
    }

    /// Partially update a coordination rule (`PATCH
    /// /rhc/kol/coordination/alerts/{id}`, PRO+); the caller's params are the
    /// JSON body and omitted fields are left untouched.
    pub fn coordination_alerts_update(&self, id: &str) -> (r: ApiRequest)
        ensures
            r@ == self.core.patch_plan("/rhc/kol/coordination/alerts/"@ + id@, BodyView::Empty, CallerParams::JsonBody),
    {
        let path = concat2("/rhc/kol/coordination/alerts/", id);
        self.core.patch(path.as_str(), RequestBody::Empty, CallerParams::JsonBody)
    }

    /// Delete a coordination rule (`DELETE /rhc/kol/coordination/alerts/{id}`,
    /// PRO+). Its cooldown state and fired signals cascade.
    pub fn coordination_alerts_delete(&self, id: &str) -> (r: ApiRequest)
        ensures
            r@ == self.core.delete_plan("/rhc/kol/coordination/alerts/"@ + id@),
    {
        let path = concat2("/rhc/kol/coordination/alerts/", id);
        self.core.delete(path.as_str())
    }

    /// Your first-touch subscriptions (`GET
    /// /rhc/kol/first-touches/subscriptions`, ULTRA+).
    pub fn first_touch_subscriptions_list(&self) -> (r: ApiRequest)
        ensures
            r@ == self.core.get_plan("/rhc/kol/first-touches/subscriptions"@, Seq::empty(), CallerParams::Absent),
    {
        self.core.get("/rhc/kol/first-touches/subscriptions", no_pairs(), CallerParams::Absent)
    }

    /// Create a first-touch subscription (`POST
    /// /rhc/kol/first-touches/subscriptions`, ULTRA+); the caller's params are
    /// the JSON body. Unknown filter keys are rejected with a 400.
    pub fn first_touch_subscriptions_create(&self) -> (r: ApiRequest)
        ensures
            r@ == self.core.post_plan("/rhc/kol/first-touches/subscriptions"@, BodyView::Empty, CallerParams::JsonBody),
    {
        self.core.post("/rhc/kol/first-touches/subscriptions", RequestBody::Empty, CallerParams::JsonBody)
    }

    /// Fetch one first-touch subscription (`GET
    /// /rhc/kol/first-touches/subscriptions/{id}`, ULTRA+); `id` is the UUID.
    pub fn first_touch_subscriptions_get(&self, id: &str) -> (r: ApiRequest)
        ensures
            r@ == self.core.get_plan("/rhc/kol/first-touches/subscriptions/"@ + id@, Seq::empty(), CallerParams::Absent),
    {
        let path = concat2("/rhc/kol/first-touches/subscriptions/", id);
        self.core.get(path.as_str(), no_pairs(), CallerParams::Absent)
    }

    /// Update a first-touch subscription (`PATCH
    /// /rhc/kol/first-touches/subscriptions/{id}`, ULTRA+). `filters` is a
    /// whole-object replace, not a merge.
    pub fn first_touch_subscriptions_update(&self, id: &str) -> (r: ApiRequest)
        ensures
            r@ == self.core.patch_plan("/rhc/kol/first-touches/subscriptions/"@ + id@, BodyView::Empty, CallerParams::JsonBody),
    {
        let path = concat2("/rhc/kol/first-touches/subscriptions/", id);
        self.core.patch(path.as_str(), RequestBody::Empty, CallerParams::JsonBody)
    }

    /// Delete a first-touch subscription (`DELETE
    /// /rhc/kol/first-touches/subscriptions/{id}`, ULTRA+).
    pub fn first_touch_subscriptions_delete(&self, id: &str) -> (r: ApiRequest)
        ensures
            r@ == self.core.delete_plan("/rhc/kol/first-touches/subscriptions/"@ + id@),
    {
        let path = concat2("/rhc/kol/first-touches/subscriptions/", id);
        self.core.delete(path.as_str())
    }
}

} // verus!
