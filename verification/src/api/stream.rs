//! The `Stream` namespace.

use std::sync::Arc;
use vstd::prelude::*;
use crate::client::{ApiRequest, HttpCore, CallerParams};
use crate::query::{no_pairs};
use crate::text::{concat2};

verus! {

/// WebSocket channel for live Robinhood Chain KOL trades (event
/// `rhc:kol_trade`). Any tier that can hold a stream connection may subscribe.
pub const RHC_KOL_TRADES: &'static str = "rhc:kol_trades";

/// WebSocket channel for the full Robinhood Chain DEX trade firehose (ULTRA+,
/// event `rhc:dex_trade`).
pub const RHC_DEX_TRADES: &'static str = "rhc:dex_trades";

/// Renamed: use `RHC_DEX_TRADES`. It carries the real channel name
/// `rhc:dex_trades`; the real gate is ULTRA+.
pub const RHC_TRADES: &'static str = "rhc:dex_trades";

/// WebSocket channel for your copy-trade rule fires (PRO+, user-scoped).
pub const RHC_COPYTRADE_SIGNALS: &'static str = "rhc:copytrade:signals";

/// WebSocket channel for your price-alert rule fires (PRO+, user-scoped,
/// ~15s polled).
pub const RHC_PRICE_ALERT_EVENTS: &'static str = "rhc:price_alert:events";

/// WebSocket channel for your KOL coordination-alert rule fires (PRO+,
/// user-scoped).
pub const RHC_KOL_COORDINATION: &'static str = "rhc:kol:coordination";

/// WebSocket channel for KOL first-touch events (PRO+, broadcast to every
/// subscriber).
pub const RHC_KOL_FIRST_TOUCHES: &'static str = "rhc:kol:first_touches";

/// WebSocket streaming: issue a token, list live sessions, evict a session.
///
/// Connect to `StreamToken::ws_url` with `?token=<token>` appended, then
/// subscribe to the Robinhood Chain channels below. Channels your tier cannot
/// access are dropped and reported in a `channels_rejected` warning frame, not
/// an error.
#[derive(Debug, Clone)]
pub struct Stream {
    pub core: Arc<HttpCore>,
}

impl Stream {
    /// Generate a 24-hour WebSocket streaming token (`POST /stream/token`, PRO+).
    pub fn get_token(&self) -> (r: ApiRequest)
        ensures
            r@ == self.core.post_empty_plan("/stream/token"@),
    {
        self.core.post_empty("/stream/token")
    }

    /// List your live WebSocket sessions (`GET /stream/sessions`, PRO+).
    pub fn sessions(&self) -> (r: ApiRequest)
        ensures
            r@ == self.core.get_plan("/stream/sessions"@, Seq::empty(), CallerParams::Absent),
    {
        self.core.get("/stream/sessions", no_pairs(), CallerParams::Absent)
    }

    /// Force-disconnect one of your live WebSocket sessions by id (`DELETE
    /// /stream/sessions/{id}`, PRO+), freeing its connection slot.
    pub fn kill_session(&self, id: &str) -> (r: ApiRequest)
        ensures
            r@ == self.core.delete_plan("/stream/sessions/"@ + id@),
    {
        let path = concat2("/stream/sessions/", id);
        self.core.delete(path.as_str())
    }
}

} // verus!
