use robinhood_chain::types::{
    BestTokensParams, BestTokensPeriod, CandlesParams, DeployerHistoryParams, DeployerLeaderboardParams,
    DeployerLeaderboardSort, DeployerTier, DeployerTokensParams, DeployerTokensSort, HotTokensParams,
    HotTokensWindow, KolLeaderboardParams, KolLeaderboardPeriod,
};

fn pairs(p: &[(&str, &str)]) -> Vec<(String, String)> {
    p.iter().map(|(k, v)| (k.to_string(), v.to_string())).collect()
}

#[test]
fn default_params_put_nothing_on_the_wire() {
    assert!(KolLeaderboardParams::default().query_pairs().is_empty());
    assert!(HotTokensParams::default().query_pairs().is_empty());
    assert!(CandlesParams::default().query_pairs().is_empty());
    assert!(DeployerLeaderboardParams::default().query_pairs().is_empty());
    assert!(DeployerTokensParams::default().query_pairs().is_empty());
    assert!(BestTokensParams::default().query_pairs().is_empty());
    assert!(DeployerHistoryParams::default().query_pairs().is_empty());
}

#[test]
fn present_fields_in_declaration_order() {
    let p = DeployerLeaderboardParams {
        sort: Some(DeployerLeaderboardSort::RunnerRate),
        tier: Some(DeployerTier::Elite),
        min_tokens: Some(5),
        limit: Some(100),
        offset: Some(0),
    };
    assert_eq!(
        p.query_pairs(),
        pairs(&[
            ("sort", "runner_rate"),
            ("tier", "elite"),
            ("min_tokens", "5"),
            ("limit", "100"),
            ("offset", "0"),
        ])
    );
}

#[test]
fn absent_fields_are_skipped() {
    let p = DeployerLeaderboardParams { tier: Some(DeployerTier::Spammer), offset: Some(40), ..Default::default() };
    assert_eq!(p.query_pairs(), pairs(&[("tier", "spammer"), ("offset", "40")]));
    let k = KolLeaderboardParams { period: Some(KolLeaderboardPeriod::D7), limit: None };
    assert_eq!(k.query_pairs(), pairs(&[("period", "7d")]));
    let h = HotTokensParams { window: Some(HotTokensWindow::M15) };
    assert_eq!(h.query_pairs(), pairs(&[("window", "15m")]));
}

#[test]
fn candles_text_fields_pass_through() {
    let p = CandlesParams {
        limit: Some(4294967295),
        from: Some("2026-08-01T00:00:00Z".to_string()),
        to: None,
    };
    assert_eq!(
        p.query_pairs(),
        pairs(&[("limit", "4294967295"), ("from", "2026-08-01T00:00:00Z")])
    );
}

#[test]
fn other_params() {
    let t = DeployerTokensParams { limit: Some(50), offset: None, sort: Some(DeployerTokensSort::PeakMcUsd) };
    assert_eq!(t.query_pairs(), pairs(&[("limit", "50"), ("sort", "peak_mc_usd")]));
    let b = BestTokensParams { period: Some(BestTokensPeriod::All), limit: Some(10) };
    assert_eq!(b.query_pairs(), pairs(&[("period", "all"), ("limit", "10")]));
    let h = DeployerHistoryParams { limit: Some(1000), offset: Some(100000) };
    assert_eq!(h.query_pairs(), pairs(&[("limit", "1000"), ("offset", "100000")]));
}

#[test]
fn planned_get_carries_the_query() {
    let c = robinhood_chain::RobinhoodChain::new("msk_q").unwrap();
    let r = c.tokens.candles("0xt", &CandlesParams { limit: Some(60), ..Default::default() });
    assert_eq!(r.query, pairs(&[("limit", "60")]));
    let r = c.kol.leaderboard(&KolLeaderboardParams { period: Some(KolLeaderboardPeriod::H24), limit: Some(3) });
    assert_eq!(r.query, pairs(&[("period", "24h"), ("limit", "3")]));
}
