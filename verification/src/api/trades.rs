//! The `Trades` namespace.

use std::sync::Arc;
use vstd::prelude::*;
use crate::client::{ApiRequest, HttpCore, CallerParams};
use crate::query::{no_pairs};

verus! {

/// The Robinhood Chain DEX trade tape.
#[derive(Debug, Clone)]
pub struct Trades {
    pub core: Arc<HttpCore>,
}

impl Trades {
    /// Robinhood Chain DEX trade tape (`GET /rhc/trades`, PRO+). The caller's
    /// `TradesParams` go into the query string; cursor via `next_before`.
    pub fn list(&self) -> (r: ApiRequest)
        ensures
            r@ == self.core.get_plan("/rhc/trades"@, Seq::empty(), CallerParams::Query),
    {
        self.core.get("/rhc/trades", no_pairs(), CallerParams::Query)
    }

    /// Liquidity removals feed — the rug signal (`GET /rhc/lp-events`, PRO+).
    /// The caller's params go into the query string.
    pub fn lp_events(&self) -> (r: ApiRequest)
        ensures
            r@ == self.core.get_plan("/rhc/lp-events"@, Seq::empty(), CallerParams::Query),
    {
        self.core.get("/rhc/lp-events", no_pairs(), CallerParams::Query)
    }
}

} // verus!
