use robinhood_chain::api::stream::{
    RHC_COPYTRADE_SIGNALS, RHC_DEX_TRADES, RHC_KOL_COORDINATION, RHC_KOL_FIRST_TOUCHES, RHC_KOL_TRADES,
    RHC_PRICE_ALERT_EVENTS, RHC_TRADES,
};
use robinhood_chain::api::wallet::Wallet;
use robinhood_chain::client::CallerParams::{Absent, JsonBody, Query};
use robinhood_chain::client::HttpMethod::{Delete, Get, Patch, Post};
use robinhood_chain::client::{ApiRequest, CallerParams, HttpMethod, RequestBody};
use robinhood_chain::types::{
    BestTokensParams, CandlesParams, DeployerHistoryParams, DeployerLeaderboardParams, DeployerTokensParams,
    HotTokensParams, KolLeaderboardParams,
};
use robinhood_chain::RobinhoodChain;

const BASE: &str = "https://madeonsol.com/api/v1";

fn client() -> RobinhoodChain {
    RobinhoodChain::new("msk_route_test").unwrap()
}

fn expect_route(r: &ApiRequest, method: HttpMethod, path: &str, caller: CallerParams) {
    assert_eq!(r.method, method, "{}", path);
    assert_eq!(r.url, format!("{}{}", BASE, path));
    assert_eq!(r.bearer_token, "msk_route_test");
    assert_eq!(r.caller_params, caller, "{}", path);
    assert_eq!(r.headers[0], ("Accept".to_string(), "application/json".to_string()));
    let json = ("Content-Type".to_string(), "application/json".to_string());
    match method {
        HttpMethod::Post | HttpMethod::Patch => assert_eq!(r.headers.get(1), Some(&json), "{}", path),
        HttpMethod::Get | HttpMethod::Delete => assert_eq!(r.headers.len(), 1, "{}", path),
    }
}

fn no_query(r: &ApiRequest) {
    assert!(r.query.is_empty(), "{}", r.url);
}

fn empty_body(r: &ApiRequest) {
    assert!(matches!(r.body, RequestBody::Empty), "{}", r.url);
}

#[test]
fn kol_routes() {
    let c = client();
    expect_route(&c.kol.feed(), Get, "/rhc/kol/feed", Query);
    expect_route(&c.kol.leaderboard(&KolLeaderboardParams::default()), Get, "/rhc/kol/leaderboard", Absent);
    expect_route(&c.kol.hot_tokens(&HotTokensParams::default()), Get, "/rhc/kol/hot-tokens", Absent);
    expect_route(&c.kol.coordination(), Get, "/rhc/kol/coordination", Query);
    expect_route(&c.kol.first_touches(), Get, "/rhc/kol/first-touches", Query);
    expect_route(&c.kol.wallet("0xabc"), Get, "/rhc/kol/0xabc", Absent);
    expect_route(&c.kol.coordination_alerts_list(), Get, "/rhc/kol/coordination/alerts", Absent);
    expect_route(&c.kol.coordination_alerts_create(), Post, "/rhc/kol/coordination/alerts", JsonBody);
    expect_route(&c.kol.coordination_alerts_get("u-1"), Get, "/rhc/kol/coordination/alerts/u-1", Absent);
    expect_route(&c.kol.coordination_alerts_update("u-1"), Patch, "/rhc/kol/coordination/alerts/u-1", JsonBody);
    expect_route(&c.kol.coordination_alerts_delete("u-1"), Delete, "/rhc/kol/coordination/alerts/u-1", Absent);
    expect_route(&c.kol.first_touch_subscriptions_list(), Get, "/rhc/kol/first-touches/subscriptions", Absent);
    expect_route(&c.kol.first_touch_subscriptions_create(), Post, "/rhc/kol/first-touches/subscriptions", JsonBody);
    expect_route(&c.kol.first_touch_subscriptions_get("s-2"), Get, "/rhc/kol/first-touches/subscriptions/s-2", Absent);
    expect_route(&c.kol.first_touch_subscriptions_update("s-2"), Patch, "/rhc/kol/first-touches/subscriptions/s-2", JsonBody);
    expect_route(&c.kol.first_touch_subscriptions_delete("s-2"), Delete, "/rhc/kol/first-touches/subscriptions/s-2", Absent);
    no_query(&c.kol.feed());
    empty_body(&c.kol.coordination_alerts_create());
}

#[test]
fn trades_and_alpha_routes() {
    let c = client();
    expect_route(&c.trades.list(), Get, "/rhc/trades", Query);
    expect_route(&c.trades.lp_events(), HttpMethod::Get, "/rhc/lp-events", CallerParams::Query);
    expect_route(&c.alpha_wallets.list(), HttpMethod::Get, "/rhc/alpha-wallets", CallerParams::Query);
}

#[test]
fn tokens_routes() {
    let c = client();
    let a = "0x1111111111111111111111111111111111111111";
    expect_route(&c.tokens.list(), Get, "/rhc/tokens", Query);
    expect_route(&c.tokens.equities(), Get, "/rhc/equities", Query);
    expect_route(&c.tokens.get(a), Get, &format!("/rhc/tokens/{}", a), Absent);
    expect_route(&c.tokens.candles(a, &CandlesParams::default()), Get, &format!("/rhc/tokens/{}/candles", a), Absent);
    expect_route(&c.tokens.kol_consensus(a), Get, &format!("/rhc/tokens/{}/kol-consensus", a), Absent);
    expect_route(&c.tokens.buyer_quality(a), Get, &format!("/rhc/tokens/{}/buyer-quality", a), Absent);
    expect_route(&c.tokens.bundle(a), Get, &format!("/rhc/tokens/{}/bundle", a), Absent);
    expect_route(&c.tokens.top_traders(a), Get, &format!("/rhc/tokens/{}/top-traders", a), Query);
    expect_route(&c.tokens.flow(a), Get, &format!("/rhc/tokens/{}/flow", a), Query);
    expect_route(&c.tokens.peak_history(a), Get, &format!("/rhc/tokens/{}/peak-history", a), Query);
    expect_route(&c.tokens.risk(a), Get, &format!("/rhc/tokens/{}/risk", a), Absent);
    expect_route(&c.tokens.holders(a), Get, &format!("/rhc/tokens/{}/holders", a), Query);
    let addrs = vec!["0xabc".to_string(), "0xdef".to_string(), "0xabc".to_string()];
    let b = c.tokens.batch(&addrs);
    expect_route(&b, Post, "/rhc/token/batch", Absent);
    match &b.body {
        RequestBody::Addresses(req) => assert_eq!(req.addresses, addrs),
        other => panic!("unexpected body {:?}", other),
    }
    let q = c.tokens.batch_buyer_quality(&addrs[..2]);
    expect_route(&q, Post, "/rhc/tokens/batch/buyer-quality", Absent);
    match &q.body {
        RequestBody::Addresses(req) => assert_eq!(req.addresses, vec!["0xabc", "0xdef"]),
        other => panic!("unexpected body {:?}", other),
    }
    let empty = c.tokens.batch(&[]);
    match &empty.body {
        RequestBody::Addresses(req) => assert!(req.addresses.is_empty()),
        other => panic!("unexpected body {:?}", other),
    }
}

#[test]
fn deployer_hunter_routes() {
    let c = client();
    let d = &c.deployer_hunter;
    expect_route(&d.leaderboard(&DeployerLeaderboardParams::default()), Get, "/rhc/deployer-hunter/leaderboard", Absent);
    expect_route(&d.profile("0xd"), Get, "/rhc/deployer-hunter/0xd", Absent);
    expect_route(&d.trajectory("0xd"), Get, "/rhc/deployer-hunter/0xd/trajectory", Absent);
    expect_route(&d.tokens("0xd", &DeployerTokensParams::default()), Get, "/rhc/deployer-hunter/0xd/tokens", Absent);
    expect_route(&d.best_tokens(&BestTokensParams::default()), Get, "/rhc/deployer-hunter/best-tokens", Absent);
    expect_route(&d.stats(), Get, "/rhc/deployer-hunter/stats", Absent);
    expect_route(&d.alerts(), Get, "/rhc/deployer-hunter/alerts", Query);
    expect_route(&d.history("0xd", &DeployerHistoryParams::default()), Get, "/rhc/deployer-hunter/0xd/history", Absent);
    expect_route(&d.recent_bonds(), Get, "/rhc/deployer-hunter/recent-bonds", Query);
}

#[test]
fn copytrade_and_price_alert_routes() {
    let c = client();
    expect_route(&c.copytrade.list(), Get, "/rhc/copytrade/subscriptions", Absent);
    expect_route(&c.copytrade.create(), Post, "/rhc/copytrade/subscriptions", JsonBody);
    expect_route(&c.copytrade.get(42), Get, "/rhc/copytrade/subscriptions/42", Absent);
    expect_route(&c.copytrade.update(42), Patch, "/rhc/copytrade/subscriptions/42", JsonBody);
    expect_route(&c.copytrade.delete(42), Delete, "/rhc/copytrade/subscriptions/42", Absent);
    expect_route(&c.copytrade.signals(), Get, "/rhc/copytrade/signals", Query);
    expect_route(&c.price_alerts.list(), Get, "/rhc/price-alerts", Absent);
    expect_route(&c.price_alerts.create(), Post, "/rhc/price-alerts", JsonBody);
    expect_route(&c.price_alerts.get(7), Get, "/rhc/price-alerts/7", Absent);
    expect_route(&c.price_alerts.update(7), Patch, "/rhc/price-alerts/7", JsonBody);
    expect_route(&c.price_alerts.delete(7), Delete, "/rhc/price-alerts/7", Absent);
    expect_route(&c.price_alerts.events(), Get, "/rhc/price-alerts/events", Query);
}

#[test]
fn numeric_ids_render_in_decimal() {
    let c = client();
    assert_eq!(c.copytrade.get(0).url, format!("{}/rhc/copytrade/subscriptions/0", BASE));
    assert_eq!(c.copytrade.get(-15).url, format!("{}/rhc/copytrade/subscriptions/-15", BASE));
    assert_eq!(
        c.price_alerts.get(i64::MAX).url,
        format!("{}/rhc/price-alerts/9223372036854775807", BASE)
    );
    assert_eq!(
        c.price_alerts.delete(i64::MIN).url,
        format!("{}/rhc/price-alerts/-9223372036854775808", BASE)
    );
    assert_eq!(c.copytrade.update(1000).url, format!("{}/rhc/copytrade/subscriptions/1000", BASE));
}

#[test]
fn stream_routes() {
    let c = client();
    let t = c.stream.get_token();
    expect_route(&t, HttpMethod::Post, "/stream/token", CallerParams::Absent);
    assert_eq!(
        t.headers,
        vec![
            ("Accept".to_string(), "application/json".to_string()),
            ("Content-Type".to_string(), "application/json".to_string()),
        ]
    );
    empty_body(&t);
    expect_route(&c.stream.sessions(), HttpMethod::Get, "/stream/sessions", CallerParams::Absent);
    let k = c.stream.kill_session("123");
    expect_route(&k, HttpMethod::Delete, "/stream/sessions/123", CallerParams::Absent);
    assert_eq!(k.headers.len(), 1);
}

#[test]
fn stream_channel_names() {
    assert_eq!(RHC_KOL_TRADES, "rhc:kol_trades");
    assert_eq!(RHC_DEX_TRADES, "rhc:dex_trades");
    assert_eq!(RHC_TRADES, RHC_DEX_TRADES);
    assert_eq!(RHC_COPYTRADE_SIGNALS, "rhc:copytrade:signals");
    assert_eq!(RHC_PRICE_ALERT_EVENTS, "rhc:price_alert:events");
    assert_eq!(RHC_KOL_COORDINATION, "rhc:kol:coordination");
    assert_eq!(RHC_KOL_FIRST_TOUCHES, "rhc:kol:first_touches");
}

#[test]
fn wallet_routes() {
    let c = client();
    let w = Wallet { core: c.kol.core.clone() };
    expect_route(&w.profile("0xw"), Get, "/rhc/wallet/0xw", Absent);
    expect_route(&w.pnl("0xw"), Get, "/rhc/wallet/0xw/pnl", Absent);
    expect_route(&w.positions("0xw"), Get, "/rhc/wallet/0xw/positions", Absent);
    expect_route(&w.trades("0xw"), Get, "/rhc/wallet/0xw/trades", Query);
    expect_route(&w.watchlist(), Get, "/rhc/wallet-tracker/watchlist", Absent);
    expect_route(&w.track(), Post, "/rhc/wallet-tracker/watchlist", JsonBody);
    expect_route(&w.untrack("0xw"), Delete, "/rhc/wallet-tracker/watchlist/0xw", Absent);
    expect_route(&w.tracked_trades(), Get, "/rhc/wallet-tracker/trades", Query);
    expect_route(&w.tracked_summary(), Get, "/rhc/wallet-tracker/summary", Query);
    let set = w.relabel("0xw", Some("whale"));
    expect_route(&set, Patch, "/rhc/wallet-tracker/watchlist/0xw", Absent);
    match &set.body {
        RequestBody::Label(Some(l)) => assert_eq!(l, "whale"),
        other => panic!("unexpected body {:?}", other),
    }
    let clear = w.relabel("0xw", None);
    assert!(matches!(clear.body, RequestBody::Label(None)));
}
