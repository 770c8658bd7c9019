//! # robinhood-chain — Robinhood Chain SDK, verified
//!
//! EVM-native on-chain trading intelligence for Robinhood Chain (chain id
//! 4663): live KOL trades, token discovery and launch-bundle detection,
//! deployer reputation, smart-money wallet ranking, OHLC candles, the DEX
//! trade tape, and the four push rule engines.
//!
//! The library decides everything about a call but the network round trip:
//! [`RobinhoodChain::new`] checks the API key, every namespace method plans
//! its request (method, URL, bearer key, headers, query, body), and
//! [`client::HttpCore::handle`] judges the response from its status and body.
//! A transport sends the planned request and hands the response back.

pub mod api;
pub mod client;
pub mod error;
pub mod query;
pub mod text;
pub mod types;

use vstd::prelude::*;
use vstd::string::StrSliceExecFns;
use crate::api::{
    alpha_wallets::AlphaWallets, copytrade::CopyTrade, deployer_hunter::DeployerHunter, kol::Kol,
    price_alerts::PriceAlerts, stream::Stream, tokens::Tokens, trades::Trades,
};
use std::sync::Arc;
use crate::client::{share_core, HttpCore, BASE_URL};
pub use crate::error::RobinhoodChainError;
use crate::error::Result;

verus! {

/// The prefix every MadeOnSol API key carries.
pub open spec fn key_prefix() -> Seq<char> {
    "msk_"@
}

/// A key the client accepts: one that starts with `msk_`.
pub open spec fn valid_api_key(key: Seq<char>) -> bool {
    key_prefix().is_prefix_of(key)
}

/// A key is accepted exactly when its first four characters are `m`, `s`,
/// `k`, `_`; whatever follows, of any length, does not matter.
pub proof fn lemma_key_prefix_chars(key: Seq<char>)
    ensures
        valid_api_key(key) <==> (key.len() >= 4 && key[0] == 'm' && key[1] == 's' && key[2] == 'k'
            && key[3] == '_'),
{
    reveal_strlit("msk_");
    assert(key_prefix() =~= seq!['m', 's', 'k', '_']);
    if key.len() >= 4 && key[0] == 'm' && key[1] == 's' && key[2] == 'k' && key[3] == '_' {
        assert(key.subrange(0, 4) =~= key_prefix());
    }
    if valid_api_key(key) {
        assert(key.subrange(0, 4) =~= key_prefix());
        assert(key[0] == key_prefix()[0]);
        assert(key[1] == key_prefix()[1]);
        assert(key[2] == key_prefix()[2]);
        assert(key[3] == key_prefix()[3]);
    }
}

/// `msk_` followed by any suffix is an accepted key.
pub proof fn lemma_any_suffix_accepted(suffix: Seq<char>)
    ensures
        valid_api_key(seq!['m', 's', 'k', '_'] + suffix),
{
    let key = seq!['m', 's', 'k', '_'] + suffix;
    lemma_key_prefix_chars(key);
    assert(key[0] == 'm' && key[1] == 's' && key[2] == 'k' && key[3] == '_');
}

/// A core that talks to the production base URL with `key`.
pub open spec fn core_for(core: Arc<HttpCore>, key: Seq<char>) -> bool {
    core.spec_base_url() == BASE_URL@ && core.spec_api_key() == key
}

/// Robinhood Chain API client: the namespaced sub-clients, all sharing one
/// reference-counted core (base URL and API key), so cloning is cheap.
#[derive(Debug, Clone)]
pub struct RobinhoodChain {
    /// KOL trade intelligence: feed, leaderboard, consensus hot-tokens,
    /// coordination, first-touches, profile, and two rule engines.
    pub kol: Kol,
    /// The Robinhood Chain DEX trade tape (PRO+).
    pub trades: Trades,
    /// Token intelligence: discovery, snapshot, candles, KOL-consensus,
    /// buyer-quality, bundle, and the two batch reads.
    pub tokens: Tokens,
    /// Deployer reputation: leaderboard, profile, trajectory, launch history,
    /// best-tokens, chain-wide stats, alerts, recent graduations.
    pub deployer_hunter: DeployerHunter,
    /// Smart-money wallet ranking (PRO+).
    pub alpha_wallets: AlphaWallets,
    /// Copy-trade rule engine: rules + fired-signal history (PRO+).
    pub copytrade: CopyTrade,
    /// Price-alert rule engine: alerts + dip/recovery events (PRO+).
    pub price_alerts: PriceAlerts,
    /// WebSocket streaming token issuance and the `rhc:*` channels.
    pub stream: Stream,
}

impl RobinhoodChain {
    /// Every namespace talks to the production base URL with `key`.
    pub open spec fn serves(self, key: Seq<char>) -> bool {
        &&& core_for(self.kol.core, key)
        &&& core_for(self.trades.core, key)
        &&& core_for(self.tokens.core, key)
        &&& core_for(self.deployer_hunter.core, key)
        &&& core_for(self.alpha_wallets.core, key)
        &&& core_for(self.copytrade.core, key)
        &&& core_for(self.price_alerts.core, key)
        &&& core_for(self.stream.core, key)
    }

    /// Construct a new client.
    ///
    /// `api_key` must start with `msk_`; otherwise, the empty key included,
    /// this returns [`RobinhoodChainError::MissingApiKey`]. Robinhood Chain
    /// coverage is bundled into every tier — get a free key at
    /// <https://madeonsol.com/pricing>.
    pub fn new(api_key: &str) -> (r: Result<Self>)
        ensures
            r is Ok <==> valid_api_key(api_key@),
            r is Ok <==> (api_key@.len() >= 4 && api_key@[0] == 'm' && api_key@[1] == 's'
                && api_key@[2] == 'k' && api_key@[3] == '_'),
            r matches Err(e) ==> e is MissingApiKey,
            r matches Ok(c) ==> c.serves(api_key@),
    {
        proof {
            lemma_key_prefix_chars(api_key@);
        }
        if !has_key_prefix(api_key) {
            return Err(RobinhoodChainError::MissingApiKey);
        }
        let core = Arc::new(HttpCore::new(api_key.to_owned()));
        Ok(RobinhoodChain {
            kol: Kol { core: share_core(&core) },
            trades: Trades { core: share_core(&core) },
            tokens: Tokens { core: share_core(&core) },
            deployer_hunter: DeployerHunter { core: share_core(&core) },
            alpha_wallets: AlphaWallets { core: share_core(&core) },
            copytrade: CopyTrade { core: share_core(&core) },
            price_alerts: PriceAlerts { core: share_core(&core) },
            stream: Stream { core },
        })
    }
}

/// Whether `key` starts with `msk_`.
fn has_key_prefix(key: &str) -> (b: bool)
    ensures
        b == valid_api_key(key@),
        b == (key@.len() >= 4 && key@[0] == 'm' && key@[1] == 's' && key@[2] == 'k' && key@[3] == '_'),
{
    proof {
        reveal_strlit("msk_");
    }
    if key.unicode_len() < 4 {
        return false;
    }
    let c0 = key.get_char(0);
    let c1 = key.get_char(1);
    let c2 = key.get_char(2);
    let c3 = key.get_char(3);
    let b = c0 == 'm' && c1 == 's' && c2 == 'k' && c3 == '_';
    assert(key_prefix() =~= seq!['m', 's', 'k', '_']);
    proof {
        if valid_api_key(key@) {
            assert(key@.subrange(0, 4) =~= key_prefix());
            assert(key@[0] == key_prefix()[0]);
            assert(key@[1] == key_prefix()[1]);
            assert(key@[2] == key_prefix()[2]);
            assert(key@[3] == key_prefix()[3]);
        }
        if b {
            assert(key_prefix() =~= key@.subrange(0, 4));
        }
    }
    b
}

} // verus!
