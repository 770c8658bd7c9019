use std::sync::Arc;

use robinhood_chain::client::BASE_URL;
use robinhood_chain::{RobinhoodChain, RobinhoodChainError};

#[test]
fn rejects_missing_api_key() {
    let err = RobinhoodChain::new("").unwrap_err();
    assert!(matches!(err, RobinhoodChainError::MissingApiKey));
}

#[test]
fn rejects_wrong_prefix() {
    let err = RobinhoodChain::new("sk_live_abc").unwrap_err();
    assert!(matches!(err, RobinhoodChainError::MissingApiKey));
}

#[test]
fn accepts_valid_prefix() {
    let client = RobinhoodChain::new("msk_test_abcdef").unwrap();
    // Smoke test — namespaces exist and the client clones cheaply.
    let _cloned = client.clone();
}

#[test]
fn rejects_prefix_in_wrong_place_or_case() {
    assert!(RobinhoodChain::new("xmsk_abc").is_err());
    assert!(RobinhoodChain::new("MSK_abc").is_err());
    assert!(RobinhoodChain::new("msk").is_err());
    assert!(RobinhoodChain::new(" msk_abc").is_err());
}

#[test]
fn accepts_bare_prefix_and_unicode_suffix() {
    assert!(RobinhoodChain::new("msk_").is_ok());
    assert!(RobinhoodChain::new("msk_é✓").is_ok());
}

#[test]
fn every_namespace_shares_key_and_base_url() {
    let c = RobinhoodChain::new("msk_shared").unwrap();
    let planned = [
        c.kol.feed(),
        c.trades.list(),
        c.tokens.list(),
        c.deployer_hunter.stats(),
        c.alpha_wallets.list(),
        c.copytrade.list(),
        c.price_alerts.list(),
        c.stream.sessions(),
    ];
    for r in &planned {
        assert_eq!(r.bearer_token, "msk_shared");
        assert!(r.url.starts_with(BASE_URL));
    }
    assert_eq!(BASE_URL, "https://madeonsol.com/api/v1");
    // One reference-counted core behind every namespace, also after a clone.
    let d = c.clone();
    assert!(Arc::ptr_eq(&c.kol.core, &c.stream.core));
    assert!(Arc::ptr_eq(&c.tokens.core, &d.copytrade.core));
}
