//! The `Wallet` namespace.

use std::sync::Arc;
use vstd::prelude::*;
use crate::client::{ApiRequest, HttpCore, CallerParams, BodyView, RequestBody};
use crate::query::{no_pairs};
use crate::text::{concat2, concat3};

verus! {

/// Wallet intelligence and the per-chain wallet watchlist. Every amount is
/// ETH; cost basis is FIFO over a rolling 90-day window. Every method here is
/// PRO+.
#[derive(Debug, Clone)]
pub struct Wallet {
    pub core: Arc<HttpCore>,
}

impl Wallet {
    /// A wallet's 90-day trading profile (`GET /rhc/wallet/{address}`).
    pub fn profile(&self, address: &str) -> (r: ApiRequest)
        ensures
            r@ == self.core.get_plan("/rhc/wallet/"@ + address@, Seq::empty(), CallerParams::Absent),
    {
        let path = concat2("/rhc/wallet/", address);
        self.core.get(path.as_str(), no_pairs(), CallerParams::Absent)
    }

    /// Full FIFO cost-basis PnL (`GET /rhc/wallet/{address}/pnl`).
    pub fn pnl(&self, address: &str) -> (r: ApiRequest)
        ensures
            r@ == self.core.get_plan("/rhc/wallet/"@ + address@ + "/pnl"@, Seq::empty(), CallerParams::Absent),
    {
        let path = concat3("/rhc/wallet/", address, "/pnl");
        self.core.get(path.as_str(), no_pairs(), CallerParams::Absent)
    }

    /// Open positions only (`GET /rhc/wallet/{address}/positions`).
    pub fn positions(&self, address: &str) -> (r: ApiRequest)
        ensures
            r@ == self.core.get_plan("/rhc/wallet/"@ + address@ + "/positions"@, Seq::empty(), CallerParams::Absent),
    {
        let path = concat3("/rhc/wallet/", address, "/positions");
        self.core.get(path.as_str(), no_pairs(), CallerParams::Absent)
    }

    /// One wallet's trade tape (`GET /rhc/wallet/{address}/trades`); the caller's
    /// params go into the query string.
    pub fn trades(&self, address: &str) -> (r: ApiRequest)
        ensures
            r@ == self.core.get_plan("/rhc/wallet/"@ + address@ + "/trades"@, Seq::empty(), CallerParams::Query),
    {
        let path = concat3("/rhc/wallet/", address, "/trades");
        self.core.get(path.as_str(), no_pairs(), CallerParams::Query)
    }

    /// Your Robinhood Chain watchlist (`GET /rhc/wallet-tracker/watchlist`).
    pub fn watchlist(&self) -> (r: ApiRequest)
        ensures
            r@ == self.core.get_plan("/rhc/wallet-tracker/watchlist"@, Seq::empty(), CallerParams::Absent),
    {
        self.core.get("/rhc/wallet-tracker/watchlist", no_pairs(), CallerParams::Absent)
    }

    /// Track a wallet (`POST /rhc/wallet-tracker/watchlist`); the caller's params
    /// are the JSON body. A 409 if already tracked, 403 at the tier cap.
    pub fn track(&self) -> (r: ApiRequest)
        ensures
            r@ == self.core.post_plan("/rhc/wallet-tracker/watchlist"@, BodyView::Empty, CallerParams::JsonBody),
    {
        self.core.post("/rhc/wallet-tracker/watchlist", RequestBody::Empty, CallerParams::JsonBody)
    }

    /// Untrack a wallet (`DELETE /rhc/wallet-tracker/watchlist/{address}`).
    pub fn untrack(&self, address: &str) -> (r: ApiRequest)
        ensures
            r@ == self.core.delete_plan("/rhc/wallet-tracker/watchlist/"@ + address@),
    {
        let path = concat2("/rhc/wallet-tracker/watchlist/", address);
        self.core.delete(path.as_str())
    }

    /// Relabel a tracked wallet (`PATCH /rhc/wallet-tracker/watchlist/{address}`);
    /// the body is `{"label": ...}`, and `None` sends `null`, which clears it.
    pub fn relabel(&self, address: &str, label: Option<&str>) -> (r: ApiRequest)
        ensures
            r@ == self.core.patch_plan("/rhc/wallet-tracker/watchlist/"@ + address@, BodyView::Label(match label { Some(l) => Some(l@), None => None }), CallerParams::Absent),
    {
        let path = concat2("/rhc/wallet-tracker/watchlist/", address);
        self.core.patch(path.as_str(), RequestBody::Label(match label { Some(l) => Some(l.to_owned()), None => None }), CallerParams::Absent)
    }

    /// Merged tape across your tracked wallets (`GET /rhc/wallet-tracker/trades`);
    /// the caller's params go into the query string.
    pub fn tracked_trades(&self) -> (r: ApiRequest)
        ensures
            r@ == self.core.get_plan("/rhc/wallet-tracker/trades"@, Seq::empty(), CallerParams::Query),
    {
        self.core.get("/rhc/wallet-tracker/trades", no_pairs(), CallerParams::Query)
    }

    /// Per-wallet rollup across your tracked wallets (`GET
    /// /rhc/wallet-tracker/summary`); the caller's params go into the query string.
    pub fn tracked_summary(&self) -> (r: ApiRequest)
        ensures
            r@ == self.core.get_plan("/rhc/wallet-tracker/summary"@, Seq::empty(), CallerParams::Query),
    {
        self.core.get("/rhc/wallet-tracker/summary", no_pairs(), CallerParams::Query)
    }
}

} // verus!
