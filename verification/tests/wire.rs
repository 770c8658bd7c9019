use robinhood_chain::types::{
    AlphaClassification, AlphaIdentity, AlphaSort, BestTokensPeriod, CoordinationPeriod, DeployerAlertPriority,
    DeployerAlertType, DeployerLeaderboardSort, DeployerTier, DeployerTokensSort, HotTokensWindow,
    KolLeaderboardPeriod, SortOrder, TokensSort, TradeAction, TradeDex,
};

#[test]
fn trade_and_window_literals() {
    assert_eq!(TradeAction::Buy.as_str(), "buy");
    assert_eq!(TradeAction::Sell.as_str(), "sell");
    assert_eq!(KolLeaderboardPeriod::H24.as_str(), "24h");
    assert_eq!(KolLeaderboardPeriod::D7.as_str(), "7d");
    assert_eq!(KolLeaderboardPeriod::D30.as_str(), "30d");
    assert_eq!(HotTokensWindow::M5.as_str(), "5m");
    assert_eq!(HotTokensWindow::M15.as_str(), "15m");
    assert_eq!(HotTokensWindow::H1.as_str(), "1h");
    assert_eq!(HotTokensWindow::H6.as_str(), "6h");
    assert_eq!(HotTokensWindow::H24.as_str(), "24h");
    assert_eq!(TradeDex::UniswapV2.as_str(), "uniswap-v2");
    assert_eq!(TradeDex::UniswapV3.as_str(), "uniswap-v3");
    assert_eq!(TradeDex::UniswapV4.as_str(), "uniswap-v4");
    assert_eq!(CoordinationPeriod::H1.as_str(), "1h");
    assert_eq!(CoordinationPeriod::H6.as_str(), "6h");
    assert_eq!(CoordinationPeriod::H24.as_str(), "24h");
    assert_eq!(CoordinationPeriod::D7.as_str(), "7d");
    assert_eq!(BestTokensPeriod::H24.as_str(), "24h");
    assert_eq!(BestTokensPeriod::D7.as_str(), "7d");
    assert_eq!(BestTokensPeriod::D30.as_str(), "30d");
    assert_eq!(BestTokensPeriod::All.as_str(), "all");
}

#[test]
fn sort_literals() {
    assert_eq!(TokensSort::LastTrade.as_str(), "last_trade");
    assert_eq!(TokensSort::MarketCap.as_str(), "market_cap");
    assert_eq!(TokensSort::Liquidity.as_str(), "liquidity");
    assert_eq!(TokensSort::PeakMc.as_str(), "peak_mc");
    assert_eq!(DeployerLeaderboardSort::GraduationRate.as_str(), "graduation_rate");
    assert_eq!(DeployerLeaderboardSort::RunnerRate.as_str(), "runner_rate");
    assert_eq!(DeployerLeaderboardSort::TokensDeployed.as_str(), "tokens_deployed");
    assert_eq!(DeployerLeaderboardSort::BestPeakMcUsd.as_str(), "best_peak_mc_usd");
    assert_eq!(DeployerLeaderboardSort::LastDeployAt.as_str(), "last_deploy_at");
    assert_eq!(AlphaSort::NetEth.as_str(), "net_eth");
    assert_eq!(AlphaSort::WinRate.as_str(), "win_rate");
    assert_eq!(AlphaSort::Trades.as_str(), "trades");
    assert_eq!(AlphaSort::Tokens.as_str(), "tokens");
    assert_eq!(AlphaSort::BuyEth.as_str(), "buy_eth");
    assert_eq!(AlphaSort::MemecoinShare.as_str(), "memecoin_share");
    assert_eq!(AlphaSort::LastTradeAt.as_str(), "last_trade_at");
    assert_eq!(SortOrder::Desc.as_str(), "desc");
    assert_eq!(SortOrder::Asc.as_str(), "asc");
    assert_eq!(DeployerTokensSort::FirstSeenAt.as_str(), "first_seen_at");
    assert_eq!(DeployerTokensSort::PeakMcUsd.as_str(), "peak_mc_usd");
}

#[test]
fn reputation_and_alert_literals() {
    assert_eq!(DeployerTier::Elite.as_str(), "elite");
    assert_eq!(DeployerTier::Good.as_str(), "good");
    assert_eq!(DeployerTier::Neutral.as_str(), "neutral");
    assert_eq!(DeployerTier::Spammer.as_str(), "spammer");
    assert_eq!(AlphaClassification::All.as_str(), "all");
    assert_eq!(AlphaClassification::Human.as_str(), "human");
    assert_eq!(AlphaClassification::Bot.as_str(), "bot");
    assert_eq!(AlphaClassification::SmartMoney.as_str(), "smart_money");
    assert_eq!(AlphaIdentity::All.as_str(), "all");
    assert_eq!(AlphaIdentity::KnownKol.as_str(), "known_kol");
    assert_eq!(AlphaIdentity::Unknown.as_str(), "unknown");
    assert_eq!(DeployerAlertType::NewDeploy.as_str(), "new_deploy");
    assert_eq!(DeployerAlertType::Graduated.as_str(), "graduated");
    assert_eq!(DeployerAlertPriority::High.as_str(), "high");
    assert_eq!(DeployerAlertPriority::Medium.as_str(), "medium");
}

fn all_distinct(lits: &[&str]) {
    for i in 0..lits.len() {
        for j in (i + 1)..lits.len() {
            assert_ne!(lits[i], lits[j]);
        }
    }
}

#[test]
fn literals_name_their_values() {
    all_distinct(&[TradeAction::Buy.as_str(), TradeAction::Sell.as_str()]);
    all_distinct(&[
        HotTokensWindow::M5.as_str(),
        HotTokensWindow::M15.as_str(),
        HotTokensWindow::H1.as_str(),
        HotTokensWindow::H6.as_str(),
        HotTokensWindow::H24.as_str(),
    ]);
    all_distinct(&[
        AlphaSort::NetEth.as_str(),
        AlphaSort::WinRate.as_str(),
        AlphaSort::Trades.as_str(),
        AlphaSort::Tokens.as_str(),
        AlphaSort::BuyEth.as_str(),
        AlphaSort::MemecoinShare.as_str(),
        AlphaSort::LastTradeAt.as_str(),
    ]);
    all_distinct(&[
        CoordinationPeriod::H1.as_str(),
        CoordinationPeriod::H6.as_str(),
        CoordinationPeriod::H24.as_str(),
        CoordinationPeriod::D7.as_str(),
    ]);
    all_distinct(&[
        DeployerTier::Elite.as_str(),
        DeployerTier::Good.as_str(),
        DeployerTier::Neutral.as_str(),
        DeployerTier::Spammer.as_str(),
    ]);
}
