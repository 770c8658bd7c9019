//! The `DeployerHunter` namespace.

use std::sync::Arc;
use vstd::prelude::*;
use crate::client::{ApiRequest, HttpCore, CallerParams};
use crate::query::{no_pairs};
use crate::text::{concat2, concat3};
use crate::types::{BestTokensParams, DeployerHistoryParams, DeployerLeaderboardParams, DeployerTokensParams};

verus! {

/// Deployer reputation on Robinhood Chain.
///
/// `elite` / `good` are earned on the $100K `runner_rate` and require 24h of
/// deployer history; `graduation_rate` (the $40K bar) is still returned but no
/// longer sets the tier, except for `spammer`.
#[derive(Debug, Clone)]
pub struct DeployerHunter {
    pub core: Arc<HttpCore>,
}

impl DeployerHunter {
    /// Deployer reputation leaderboard (`GET /rhc/deployer-hunter/leaderboard`,
    /// BASIC+). Page with `limit`/`offset` until `has_more` is false.
    pub fn leaderboard(&self, params: &DeployerLeaderboardParams) -> (r: ApiRequest)
        ensures
            r@ == self.core.get_plan("/rhc/deployer-hunter/leaderboard"@, params.query_view(), CallerParams::Absent),
    {
        self.core.get("/rhc/deployer-hunter/leaderboard", params.query_pairs(), CallerParams::Absent)
    }

    /// Single deployer profile (`GET /rhc/deployer-hunter/{address}`, BASIC+).
    /// Unknown wallets return 200 with `is_deployer: false`.
    pub fn profile(&self, address: &str) -> (r: ApiRequest)
        ensures
            r@ == self.core.get_plan("/rhc/deployer-hunter/"@ + address@, Seq::empty(), CallerParams::Absent),
    {
        let path = concat2("/rhc/deployer-hunter/", address);
        self.core.get(path.as_str(), no_pairs(), CallerParams::Absent)
    }

    /// Is this deployer getting better or worse? (`GET
    /// /rhc/deployer-hunter/{address}/trajectory`, BASIC+).
    pub fn trajectory(&self, address: &str) -> (r: ApiRequest)
        ensures
            r@ == self.core.get_plan("/rhc/deployer-hunter/"@ + address@ + "/trajectory"@, Seq::empty(), CallerParams::Absent),
    {
        let path = concat3("/rhc/deployer-hunter/", address, "/trajectory");
        self.core.get(path.as_str(), no_pairs(), CallerParams::Absent)
    }

    /// A deployer's full paginated launch history (`GET
    /// /rhc/deployer-hunter/{address}/tokens`, BASIC+).
    pub fn tokens(&self, address: &str, params: &DeployerTokensParams) -> (r: ApiRequest)
        ensures
            r@ == self.core.get_plan("/rhc/deployer-hunter/"@ + address@ + "/tokens"@, params.query_view(), CallerParams::Absent),
    {
        let path = concat3("/rhc/deployer-hunter/", address, "/tokens");
        self.core.get(path.as_str(), params.query_pairs(), CallerParams::Absent)
    }

    /// Best tokens from reputable deployers (`GET
    /// /rhc/deployer-hunter/best-tokens`, BASIC+).
    pub fn best_tokens(&self, params: &BestTokensParams) -> (r: ApiRequest)
        ensures
            r@ == self.core.get_plan("/rhc/deployer-hunter/best-tokens"@, params.query_view(), CallerParams::Absent),
    {
        self.core.get("/rhc/deployer-hunter/best-tokens", params.query_pairs(), CallerParams::Absent)
    }

    /// Chain-wide deployer reputation summary (`GET /rhc/deployer-hunter/stats`,
    /// BASIC+), with the active `tier_rules`.
    pub fn stats(&self) -> (r: ApiRequest)
        ensures
            r@ == self.core.get_plan("/rhc/deployer-hunter/stats"@, Seq::empty(), CallerParams::Absent),
    {
        self.core.get("/rhc/deployer-hunter/stats", no_pairs(), CallerParams::Absent)
    }

    /// Deployer signal feed (`GET /rhc/deployer-hunter/alerts`, BASIC+). The
    /// tradability filter is on by default; the caller's `DeployerAlertsParams`
    /// go into the query string.
    pub fn alerts(&self) -> (r: ApiRequest)
        ensures
            r@ == self.core.get_plan("/rhc/deployer-hunter/alerts"@, Seq::empty(), CallerParams::Query),
    {
        self.core.get("/rhc/deployer-hunter/alerts", no_pairs(), CallerParams::Query)
    }

    /// A deployer's deploy history with graduation detail (`GET
    /// /rhc/deployer-hunter/{address}/history`, PRO+).
    pub fn history(&self, address: &str, params: &DeployerHistoryParams) -> (r: ApiRequest)
        ensures
            r@ == self.core.get_plan("/rhc/deployer-hunter/"@ + address@ + "/history"@, params.query_view(), CallerParams::Absent),
    {
        let path = concat3("/rhc/deployer-hunter/", address, "/history");
        self.core.get(path.as_str(), params.query_pairs(), CallerParams::Absent)
    }

    /// Recent graduations (`GET /rhc/deployer-hunter/recent-bonds`, BASIC+). The
    /// caller's `RecentBondsParams` go into the query string.
    pub fn recent_bonds(&self) -> (r: ApiRequest)
        ensures
            r@ == self.core.get_plan("/rhc/deployer-hunter/recent-bonds"@, Seq::empty(), CallerParams::Query),
    {
        self.core.get("/rhc/deployer-hunter/recent-bonds", no_pairs(), CallerParams::Query)
    }
}

} // verus!
