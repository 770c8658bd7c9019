//! The `Tokens` namespace.

use std::sync::Arc;
use vstd::prelude::*;
use crate::client::{ApiRequest, HttpCore, CallerParams, BodyView, RequestBody};
use crate::query::{no_pairs};
use crate::text::{concat2, concat3};
use crate::types::{BatchAddressesRequest, CandlesParams};
use crate::api::copy_strings;

verus! {

/// Token intelligence on Robinhood Chain — discovery, per-token snapshot,
/// OHLC candles, KOL consensus, buyer-quality scoring, and launch-bundle detection.
#[derive(Debug, Clone)]
pub struct Tokens {
    pub core: Arc<HttpCore>,
}

impl Tokens {
    /// Token discovery (`GET /rhc/tokens`, PRO+). The caller's `TokensListParams`
    /// go into the query string.
    pub fn list(&self) -> (r: ApiRequest)
        ensures
            r@ == self.core.get_plan("/rhc/tokens"@, Seq::empty(), CallerParams::Query),
    {
        self.core.get("/rhc/tokens", no_pairs(), CallerParams::Query)
    }

    /// Tokenized stocks & ETFs (`GET /rhc/equities`, BASIC+). The caller's params
    /// go into the query string.
    pub fn equities(&self) -> (r: ApiRequest)
        ensures
            r@ == self.core.get_plan("/rhc/equities"@, Seq::empty(), CallerParams::Query),
    {
        self.core.get("/rhc/equities", no_pairs(), CallerParams::Query)
    }

    /// Single-token snapshot (`GET /rhc/tokens/{address}`, BASIC+); a 404 when the
    /// token is not found on Robinhood Chain.
    pub fn get(&self, address: &str) -> (r: ApiRequest)
        ensures
            r@ == self.core.get_plan("/rhc/tokens/"@ + address@, Seq::empty(), CallerParams::Absent),
    {
        let path = concat2("/rhc/tokens/", address);
        self.core.get(path.as_str(), no_pairs(), CallerParams::Absent)
    }

    /// 1-minute OHLC candles (`GET /rhc/tokens/{address}/candles`, PRO+), ordered
    /// oldest to newest.
    pub fn candles(&self, address: &str, params: &CandlesParams) -> (r: ApiRequest)
        ensures
            r@ == self.core.get_plan("/rhc/tokens/"@ + address@ + "/candles"@, params.query_view(), CallerParams::Absent),
    {
        let path = concat3("/rhc/tokens/", address, "/candles");
        self.core.get(path.as_str(), params.query_pairs(), CallerParams::Absent)
    }

    /// KOL consensus on a token (`GET /rhc/tokens/{address}/kol-consensus`, PRO+).
    pub fn kol_consensus(&self, address: &str) -> (r: ApiRequest)
        ensures
            r@ == self.core.get_plan("/rhc/tokens/"@ + address@ + "/kol-consensus"@, Seq::empty(), CallerParams::Absent),
    {
        let path = concat3("/rhc/tokens/", address, "/kol-consensus");
        self.core.get(path.as_str(), no_pairs(), CallerParams::Absent)
    }

    /// Early-buyer quality (`GET /rhc/tokens/{address}/buyer-quality`, BASIC+).
    pub fn buyer_quality(&self, address: &str) -> (r: ApiRequest)
        ensures
            r@ == self.core.get_plan("/rhc/tokens/"@ + address@ + "/buyer-quality"@, Seq::empty(), CallerParams::Absent),
    {
        let path = concat3("/rhc/tokens/", address, "/buyer-quality");
        self.core.get(path.as_str(), no_pairs(), CallerParams::Absent)
    }

    /// Launch-bundle detection (`GET /rhc/tokens/{address}/bundle`, BASIC+).
    pub fn bundle(&self, address: &str) -> (r: ApiRequest)
        ensures
            r@ == self.core.get_plan("/rhc/tokens/"@ + address@ + "/bundle"@, Seq::empty(), CallerParams::Absent),
    {
        let path = concat3("/rhc/tokens/", address, "/bundle");
        self.core.get(path.as_str(), no_pairs(), CallerParams::Absent)
    }

    /// Top traders of one token (`GET /rhc/tokens/{address}/top-traders`, PRO+).
    /// `net_eth` is realized flow (`sell − buy`), not PnL. The caller's params go
    /// into the query string.
    pub fn top_traders(&self, address: &str) -> (r: ApiRequest)
        ensures
            r@ == self.core.get_plan("/rhc/tokens/"@ + address@ + "/top-traders"@, Seq::empty(), CallerParams::Query),
    {
        let path = concat3("/rhc/tokens/", address, "/top-traders");
        self.core.get(path.as_str(), no_pairs(), CallerParams::Query)
    }

    /// Net buy/sell flow by trader cohort (`GET /rhc/tokens/{address}/flow`, PRO+);
    /// `net_eth = sell − buy`. The caller's params go into the query string.
    pub fn flow(&self, address: &str) -> (r: ApiRequest)
        ensures
            r@ == self.core.get_plan("/rhc/tokens/"@ + address@ + "/flow"@, Seq::empty(), CallerParams::Query),
    {
        let path = concat3("/rhc/tokens/", address, "/flow");
        self.core.get(path.as_str(), no_pairs(), CallerParams::Query)
    }

    /// Peak MC, drawdown and high-water curve (`GET
    /// /rhc/tokens/{address}/peak-history`, PRO+). The caller's params go into
    /// the query string.
    pub fn peak_history(&self, address: &str) -> (r: ApiRequest)
        ensures
            r@ == self.core.get_plan("/rhc/tokens/"@ + address@ + "/peak-history"@, Seq::empty(), CallerParams::Query),
    {
        let path = concat3("/rhc/tokens/", address, "/peak-history");
        self.core.get(path.as_str(), no_pairs(), CallerParams::Query)
    }

    /// EVM-native risk, computed live (`GET /rhc/tokens/{address}/risk`, PRO+).
    pub fn risk(&self, address: &str) -> (r: ApiRequest)
        ensures
            r@ == self.core.get_plan("/rhc/tokens/"@ + address@ + "/risk"@, Seq::empty(), CallerParams::Absent),
    {
        let path = concat3("/rhc/tokens/", address, "/risk");
        self.core.get(path.as_str(), no_pairs(), CallerParams::Absent)
    }

    /// Exact holder set + concentration (`GET /rhc/tokens/{address}/holders`,
    /// PRO+). The caller's params go into the query string.
    pub fn holders(&self, address: &str) -> (r: ApiRequest)
        ensures
            r@ == self.core.get_plan("/rhc/tokens/"@ + address@ + "/holders"@, Seq::empty(), CallerParams::Query),
    {
        let path = concat3("/rhc/tokens/", address, "/holders");
        self.core.get(path.as_str(), no_pairs(), CallerParams::Query)
    }

    /// Up to 50 tokens in one call (`POST /rhc/token/batch`, BASIC+); the body is
    /// `{"addresses": [...]}` with the addresses in the order given. The server
    /// answers a 400 when the list is empty, over 50, or holds a non-EVM address.
    pub fn batch(&self, addresses: &[String]) -> (r: ApiRequest)
        ensures
            r@ == self.core.post_plan("/rhc/token/batch"@, BodyView::Addresses(addresses@.map_values(|s: String| s@)), CallerParams::Absent),
    {
        self.core.post("/rhc/token/batch", RequestBody::Addresses(BatchAddressesRequest { addresses: copy_strings(addresses) }), CallerParams::Absent)
    }

    /// Early-buyer quality for up to 20 tokens (`POST
    /// /rhc/tokens/batch/buyer-quality`, BASIC+); the body is
    /// `{"addresses": [...]}` with the addresses in the order given.
    pub fn batch_buyer_quality(&self, addresses: &[String]) -> (r: ApiRequest)
        ensures
            r@ == self.core.post_plan("/rhc/tokens/batch/buyer-quality"@, BodyView::Addresses(addresses@.map_values(|s: String| s@)), CallerParams::Absent),
    {
        self.core.post("/rhc/tokens/batch/buyer-quality", RequestBody::Addresses(BatchAddressesRequest { addresses: copy_strings(addresses) }), CallerParams::Absent)
    }
}

} // verus!
