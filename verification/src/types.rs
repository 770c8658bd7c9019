//! Request parameters, response values and the wire vocabulary of every
//! Robinhood Chain endpoint.
//!
//! Robinhood Chain is an EVM chain (id 4663), so every wire field is EVM-native:
//! `token_address` (lowercase `0x…`), `eth_amount`, `tx_hash`, `block_number`.

use vstd::prelude::*;
use crate::text::decimal;
use crate::query::{QueryView, pairs_view, opt_pair, opt_decimal, opt_text, push_opt_u32, push_opt_text, push_opt_literal};

verus! {

// ─── Shared enums ────────────────────────────────────────────────────────────

/// Trade side.
#[derive(Debug, Clone, Copy, PartialEq, Eq, Structural)]
pub enum TradeAction {
    Buy,
    Sell,
}

impl TradeAction {
    /// The wire literal the API uses for this value.
    pub open spec fn wire(self) -> Seq<char> {
        match self {
            TradeAction::Buy => "buy"@,
            TradeAction::Sell => "sell"@,
        }
    }

    /// Distinct values have distinct wire literals: the literal names the value.
    pub proof fn lemma_wire_injective(a: Self, b: Self)
        ensures
            a.wire() == b.wire() ==> a == b,
    {
        reveal_strlit("buy");
        reveal_strlit("sell");
        assert("buy"@.len() != "sell"@.len());
    }

    /// The wire literal, as sent in query strings.
    pub fn as_str(&self) -> (s: &'static str)
        ensures
            s@ == self.wire(),
    {
        match self {
            TradeAction::Buy => "buy",
            TradeAction::Sell => "sell",
        }
    }
}

/// Rolling window for the KOL leaderboard.
#[derive(Debug, Clone, Copy, PartialEq, Eq, Structural)]
pub enum KolLeaderboardPeriod {
    H24,
    D7,
    D30,
}

impl KolLeaderboardPeriod {
    /// The wire literal the API uses for this value.
    pub open spec fn wire(self) -> Seq<char> {
        match self {
            KolLeaderboardPeriod::H24 => "24h"@,
            KolLeaderboardPeriod::D7 => "7d"@,
            KolLeaderboardPeriod::D30 => "30d"@,
        }
    }

    /// Distinct values have distinct wire literals: the literal names the value.
    pub proof fn lemma_wire_injective(a: Self, b: Self)
        ensures
            a.wire() == b.wire() ==> a == b,
    {
        reveal_strlit("24h");
        reveal_strlit("30d");
        reveal_strlit("7d");
        assert("24h"@.len() != "7d"@.len());
        assert("24h"@[0] != "30d"@[0]);
        assert("7d"@.len() != "30d"@.len());
    }

    /// The wire literal, as sent in query strings.
    pub fn as_str(&self) -> (s: &'static str)
        ensures
            s@ == self.wire(),
    {
        match self {
            KolLeaderboardPeriod::H24 => "24h",
            KolLeaderboardPeriod::D7 => "7d",
            KolLeaderboardPeriod::D30 => "30d",
        }
    }
}

/// Rolling consensus window for hot tokens.
#[derive(Debug, Clone, Copy, PartialEq, Eq, Structural)]
pub enum HotTokensWindow {
    M5,
    M15,
    H1,
    H6,
    H24,
}

impl HotTokensWindow {
    /// The wire literal the API uses for this value.
    pub open spec fn wire(self) -> Seq<char> {
        match self {
            HotTokensWindow::M5 => "5m"@,
            HotTokensWindow::M15 => "15m"@,
            HotTokensWindow::H1 => "1h"@,
            HotTokensWindow::H6 => "6h"@,
            HotTokensWindow::H24 => "24h"@,
        }
    }

    /// Distinct values have distinct wire literals: the literal names the value.
    pub proof fn lemma_wire_injective(a: Self, b: Self)
        ensures
            a.wire() == b.wire() ==> a == b,
    {
        reveal_strlit("15m");
        reveal_strlit("1h");
        reveal_strlit("24h");
        reveal_strlit("5m");
        reveal_strlit("6h");
        assert("5m"@.len() != "15m"@.len());
        assert("5m"@[0] != "1h"@[0]);
        assert("5m"@[0] != "6h"@[0]);
        assert("5m"@.len() != "24h"@.len());
        assert("15m"@.len() != "1h"@.len());
        assert("15m"@.len() != "6h"@.len());
        assert("15m"@[0] != "24h"@[0]);
        assert("1h"@[0] != "6h"@[0]);
        assert("1h"@.len() != "24h"@.len());
        assert("6h"@.len() != "24h"@.len());
    }

    /// The wire literal, as sent in query strings.
    pub fn as_str(&self) -> (s: &'static str)
        ensures
            s@ == self.wire(),
    {
        match self {
            HotTokensWindow::M5 => "5m",
            HotTokensWindow::M15 => "15m",
            HotTokensWindow::H1 => "1h",
            HotTokensWindow::H6 => "6h",
            HotTokensWindow::H24 => "24h",
        }
    }
}

/// Uniswap DEX version filter for the trade tape.
#[derive(Debug, Clone, Copy, PartialEq, Eq, Structural)]
pub enum TradeDex {
    UniswapV2,
    UniswapV3,
    UniswapV4,
}

impl TradeDex {
    /// The wire literal the API uses for this value.
    pub open spec fn wire(self) -> Seq<char> {
        match self {
            TradeDex::UniswapV2 => "uniswap-v2"@,
            TradeDex::UniswapV3 => "uniswap-v3"@,
            TradeDex::UniswapV4 => "uniswap-v4"@,
        }
    }

    /// Distinct values have distinct wire literals: the literal names the value.
    pub proof fn lemma_wire_injective(a: Self, b: Self)
        ensures
            a.wire() == b.wire() ==> a == b,
    {
        reveal_strlit("uniswap-v2");
        reveal_strlit("uniswap-v3");
        reveal_strlit("uniswap-v4");
        assert("uniswap-v2"@[9] != "uniswap-v3"@[9]);
        assert("uniswap-v2"@[9] != "uniswap-v4"@[9]);
        assert("uniswap-v3"@[9] != "uniswap-v4"@[9]);
    }

    /// The wire literal, as sent in query strings.
    pub fn as_str(&self) -> (s: &'static str)
        ensures
            s@ == self.wire(),
    {
        match self {
            TradeDex::UniswapV2 => "uniswap-v2",
            TradeDex::UniswapV3 => "uniswap-v3",
            TradeDex::UniswapV4 => "uniswap-v4",
        }
    }
}

/// Ordering for token discovery (all descending).
#[derive(Debug, Clone, Copy, PartialEq, Eq, Structural)]
pub enum TokensSort {
    LastTrade,
    MarketCap,
    Liquidity,
    PeakMc,
}

impl TokensSort {
    /// The wire literal the API uses for this value.
    pub open spec fn wire(self) -> Seq<char> {
        match self {
            TokensSort::LastTrade => "last_trade"@,
            TokensSort::MarketCap => "market_cap"@,
            TokensSort::Liquidity => "liquidity"@,
            TokensSort::PeakMc => "peak_mc"@,
        }
    }

    /// Distinct values have distinct wire literals: the literal names the value.
    pub proof fn lemma_wire_injective(a: Self, b: Self)
        ensures
            a.wire() == b.wire() ==> a == b,
    {
        reveal_strlit("last_trade");
        reveal_strlit("liquidity");
        reveal_strlit("market_cap");
        reveal_strlit("peak_mc");
        assert("last_trade"@[0] != "market_cap"@[0]);
        assert("last_trade"@.len() != "liquidity"@.len());
        assert("last_trade"@.len() != "peak_mc"@.len());
        assert("market_cap"@.len() != "liquidity"@.len());
        assert("market_cap"@.len() != "peak_mc"@.len());
        assert("liquidity"@.len() != "peak_mc"@.len());
    }

    /// The wire literal, as sent in query strings.
    pub fn as_str(&self) -> (s: &'static str)
        ensures
            s@ == self.wire(),
    {
        match self {
            TokensSort::LastTrade => "last_trade",
            TokensSort::MarketCap => "market_cap",
            TokensSort::Liquidity => "liquidity",
            TokensSort::PeakMc => "peak_mc",
        }
    }
}

/// Deployer reputation tier (filter + response value).
///
/// `Elite` and `Good` are earned on the $100K `runner_rate` and require 24h of
/// deployer history; `Spammer` is the one tier that still keys off the $40K
/// `graduation_rate`.
#[derive(Debug, Clone, Copy, PartialEq, Eq, Structural)]
pub enum DeployerTier {
    Elite,
    Good,
    Neutral,
    Spammer,
}

impl DeployerTier {
    /// The wire literal the API uses for this value.
    pub open spec fn wire(self) -> Seq<char> {
        match self {
            DeployerTier::Elite => "elite"@,
            DeployerTier::Good => "good"@,
            DeployerTier::Neutral => "neutral"@,
            DeployerTier::Spammer => "spammer"@,
        }
    }

    /// Distinct values have distinct wire literals: the literal names the value.
    pub proof fn lemma_wire_injective(a: Self, b: Self)
        ensures
            a.wire() == b.wire() ==> a == b,
    {
        reveal_strlit("elite");
        reveal_strlit("good");
        reveal_strlit("neutral");
        reveal_strlit("spammer");
        assert("elite"@.len() != "good"@.len());
        assert("elite"@.len() != "neutral"@.len());
        assert("elite"@.len() != "spammer"@.len());
        assert("good"@.len() != "neutral"@.len());
        assert("good"@.len() != "spammer"@.len());
        assert("neutral"@[0] != "spammer"@[0]);
    }

    /// The wire literal, as sent in query strings.
    pub fn as_str(&self) -> (s: &'static str)
        ensures
            s@ == self.wire(),
    {
        match self {
            DeployerTier::Elite => "elite",
            DeployerTier::Good => "good",
            DeployerTier::Neutral => "neutral",
            DeployerTier::Spammer => "spammer",
        }
    }
}

/// Ordering for the deployer-hunter leaderboard (all descending, NULLs last).
#[derive(Debug, Clone, Copy, PartialEq, Eq, Structural)]
pub enum DeployerLeaderboardSort {
    GraduationRate,
    RunnerRate,
    TokensDeployed,
    BestPeakMcUsd,
    LastDeployAt,
}

impl DeployerLeaderboardSort {
    /// The wire literal the API uses for this value.
    pub open spec fn wire(self) -> Seq<char> {
        match self {
            DeployerLeaderboardSort::GraduationRate => "graduation_rate"@,
            DeployerLeaderboardSort::RunnerRate => "runner_rate"@,
            DeployerLeaderboardSort::TokensDeployed => "tokens_deployed"@,
            DeployerLeaderboardSort::BestPeakMcUsd => "best_peak_mc_usd"@,
            DeployerLeaderboardSort::LastDeployAt => "last_deploy_at"@,
        }
    }

    /// Distinct values have distinct wire literals: the literal names the value.
    pub proof fn lemma_wire_injective(a: Self, b: Self)
        ensures
            a.wire() == b.wire() ==> a == b,
    {
        reveal_strlit("best_peak_mc_usd");
        reveal_strlit("graduation_rate");
        reveal_strlit("last_deploy_at");
        reveal_strlit("runner_rate");
        reveal_strlit("tokens_deployed");
        assert("graduation_rate"@.len() != "runner_rate"@.len());
        assert("graduation_rate"@[0] != "tokens_deployed"@[0]);
        assert("graduation_rate"@.len() != "best_peak_mc_usd"@.len());
        assert("graduation_rate"@.len() != "last_deploy_at"@.len());
        assert("runner_rate"@.len() != "tokens_deployed"@.len());
        assert("runner_rate"@.len() != "best_peak_mc_usd"@.len());
        assert("runner_rate"@.len() != "last_deploy_at"@.len());
        assert("tokens_deployed"@.len() != "best_peak_mc_usd"@.len());
        assert("tokens_deployed"@.len() != "last_deploy_at"@.len());
        assert("best_peak_mc_usd"@.len() != "last_deploy_at"@.len());
    }

    /// The wire literal, as sent in query strings.
    pub fn as_str(&self) -> (s: &'static str)
        ensures
            s@ == self.wire(),
    {
        match self {
            DeployerLeaderboardSort::GraduationRate => "graduation_rate",
            DeployerLeaderboardSort::RunnerRate => "runner_rate",
            DeployerLeaderboardSort::TokensDeployed => "tokens_deployed",
            DeployerLeaderboardSort::BestPeakMcUsd => "best_peak_mc_usd",
            DeployerLeaderboardSort::LastDeployAt => "last_deploy_at",
        }
    }
}

/// Behavioural classification filter for alpha-wallet ranking.
#[derive(Debug, Clone, Copy, PartialEq, Eq, Structural)]
pub enum AlphaClassification {
    All,
    Human,
    Bot,
    SmartMoney,
}

impl AlphaClassification {
    /// The wire literal the API uses for this value.
    pub open spec fn wire(self) -> Seq<char> {
        match self {
            AlphaClassification::All => "all"@,
            AlphaClassification::Human => "human"@,
            AlphaClassification::Bot => "bot"@,
            AlphaClassification::SmartMoney => "smart_money"@,
        }
    }

    /// Distinct values have distinct wire literals: the literal names the value.
    pub proof fn lemma_wire_injective(a: Self, b: Self)
        ensures
            a.wire() == b.wire() ==> a == b,
    {
        reveal_strlit("all");
        reveal_strlit("bot");
        reveal_strlit("human");
        reveal_strlit("smart_money");
        assert("all"@.len() != "human"@.len());
        assert("all"@[0] != "bot"@[0]);
        assert("all"@.len() != "smart_money"@.len());
        assert("human"@.len() != "bot"@.len());
        assert("human"@.len() != "smart_money"@.len());
        assert("bot"@.len() != "smart_money"@.len());
    }

    /// The wire literal, as sent in query strings.
    pub fn as_str(&self) -> (s: &'static str)
        ensures
            s@ == self.wire(),
    {
        match self {
            AlphaClassification::All => "all",
            AlphaClassification::Human => "human",
            AlphaClassification::Bot => "bot",
            AlphaClassification::SmartMoney => "smart_money",
        }
    }
}

/// Identity filter for alpha-wallet ranking.
#[derive(Debug, Clone, Copy, PartialEq, Eq, Structural)]
pub enum AlphaIdentity {
    All,
    KnownKol,
    Unknown,
}

impl AlphaIdentity {
    /// The wire literal the API uses for this value.
    pub open spec fn wire(self) -> Seq<char> {
        match self {
            AlphaIdentity::All => "all"@,
            AlphaIdentity::KnownKol => "known_kol"@,
            AlphaIdentity::Unknown => "unknown"@,
        }
    }

    /// Distinct values have distinct wire literals: the literal names the value.
    pub proof fn lemma_wire_injective(a: Self, b: Self)
        ensures
            a.wire() == b.wire() ==> a == b,
    {
        reveal_strlit("all");
        reveal_strlit("known_kol");
        reveal_strlit("unknown");
        assert("all"@.len() != "known_kol"@.len());
        assert("all"@.len() != "unknown"@.len());
        assert("known_kol"@.len() != "unknown"@.len());
    }

    /// The wire literal, as sent in query strings.
    pub fn as_str(&self) -> (s: &'static str)
        ensures
            s@ == self.wire(),
    {
        match self {
            AlphaIdentity::All => "all",
            AlphaIdentity::KnownKol => "known_kol",
            AlphaIdentity::Unknown => "unknown",
        }
    }
}

/// Ordering for alpha-wallet ranking.
#[derive(Debug, Clone, Copy, PartialEq, Eq, Structural)]
pub enum AlphaSort {
    NetEth,
    WinRate,
    Trades,
    Tokens,
    BuyEth,
    MemecoinShare,
    LastTradeAt,
}

impl AlphaSort {
    /// The wire literal the API uses for this value.
    pub open spec fn wire(self) -> Seq<char> {
        match self {
            AlphaSort::NetEth => "net_eth"@,
            AlphaSort::WinRate => "win_rate"@,
            AlphaSort::Trades => "trades"@,
            AlphaSort::Tokens => "tokens"@,
            AlphaSort::BuyEth => "buy_eth"@,
            AlphaSort::MemecoinShare => "memecoin_share"@,
            AlphaSort::LastTradeAt => "last_trade_at"@,
        }
    }

    /// Distinct values have distinct wire literals: the literal names the value.
    pub proof fn lemma_wire_injective(a: Self, b: Self)
        ensures
            a.wire() == b.wire() ==> a == b,
    {
        reveal_strlit("buy_eth");
        reveal_strlit("last_trade_at");
        reveal_strlit("memecoin_share");
        reveal_strlit("net_eth");
        reveal_strlit("tokens");
        reveal_strlit("trades");
        reveal_strlit("win_rate");
        assert("net_eth"@.len() != "win_rate"@.len());
        assert("net_eth"@.len() != "trades"@.len());
        assert("net_eth"@.len() != "tokens"@.len());
        assert("net_eth"@[0] != "buy_eth"@[0]);
        assert("net_eth"@.len() != "memecoin_share"@.len());
        assert("net_eth"@.len() != "last_trade_at"@.len());
        assert("win_rate"@.len() != "trades"@.len());
        assert("win_rate"@.len() != "tokens"@.len());
        assert("win_rate"@.len() != "buy_eth"@.len());
        assert("win_rate"@.len() != "memecoin_share"@.len());
        assert("win_rate"@.len() != "last_trade_at"@.len());
        assert("trades"@[1] != "tokens"@[1]);
        assert("trades"@.len() != "buy_eth"@.len());
        assert("trades"@.len() != "memecoin_share"@.len());
        assert("trades"@.len() != "last_trade_at"@.len());
        assert("tokens"@.len() != "buy_eth"@.len());
        assert("tokens"@.len() != "memecoin_share"@.len());
        assert("tokens"@.len() != "last_trade_at"@.len());
        assert("buy_eth"@.len() != "memecoin_share"@.len());
        assert("buy_eth"@.len() != "last_trade_at"@.len());
        assert("memecoin_share"@.len() != "last_trade_at"@.len());
    }

    /// The wire literal, as sent in query strings.
    pub fn as_str(&self) -> (s: &'static str)
        ensures
            s@ == self.wire(),
    {
        match self {
            AlphaSort::NetEth => "net_eth",
            AlphaSort::WinRate => "win_rate",
            AlphaSort::Trades => "trades",
            AlphaSort::Tokens => "tokens",
            AlphaSort::BuyEth => "buy_eth",
            AlphaSort::MemecoinShare => "memecoin_share",
            AlphaSort::LastTradeAt => "last_trade_at",
        }
    }
}

/// Sort direction.
#[derive(Debug, Clone, Copy, PartialEq, Eq, Structural)]
pub enum SortOrder {
    Desc,
    Asc,
}

impl SortOrder {
    /// The wire literal the API uses for this value.
    pub open spec fn wire(self) -> Seq<char> {
        match self {
            SortOrder::Desc => "desc"@,
            SortOrder::Asc => "asc"@,
        }
    }

    /// Distinct values have distinct wire literals: the literal names the value.
    pub proof fn lemma_wire_injective(a: Self, b: Self)
        ensures
            a.wire() == b.wire() ==> a == b,
    {
        reveal_strlit("asc");
        reveal_strlit("desc");
        assert("desc"@.len() != "asc"@.len());
    }

    /// The wire literal, as sent in query strings.
    pub fn as_str(&self) -> (s: &'static str)
        ensures
            s@ == self.wire(),
    {
        match self {
            SortOrder::Desc => "desc",
            SortOrder::Asc => "asc",
        }
    }
}

/// Confidence band on a buyer-quality read.
#[derive(Debug, Clone, Copy, PartialEq, Eq, Structural)]
pub enum Confidence {
    Low,
    Medium,
    High,
}

/// Directional signal on a buyer-quality read.
#[derive(Debug, Clone, Copy, PartialEq, Eq, Structural)]
pub enum QualitySignal {
    Positive,
    Neutral,
    Negative,
}

/// Launch-bundle kind. Robinhood Chain has no atomic multi-signer
/// transaction, so a detected bundle is `same_block`; `NotBundled` is the wire
/// literal `none`.
#[derive(Debug, Clone, Copy, PartialEq, Eq, Structural)]
pub enum BundleKind {
    SameBlock,
    NotBundled,
}

/// Window for the reputable-deployer best-tokens ranking.
#[derive(Debug, Clone, Copy, PartialEq, Eq, Structural)]
pub enum BestTokensPeriod {
    H24,
    D7,
    D30,
    All,
}

impl BestTokensPeriod {
    /// The wire literal the API uses for this value.
    pub open spec fn wire(self) -> Seq<char> {
        match self {
            BestTokensPeriod::H24 => "24h"@,
            BestTokensPeriod::D7 => "7d"@,
            BestTokensPeriod::D30 => "30d"@,
            BestTokensPeriod::All => "all"@,
        }
    }

    /// Distinct values have distinct wire literals: the literal names the value.
    pub proof fn lemma_wire_injective(a: Self, b: Self)
        ensures
            a.wire() == b.wire() ==> a == b,
    {
        reveal_strlit("24h");
        reveal_strlit("30d");
        reveal_strlit("7d");
        reveal_strlit("all");
        assert("24h"@.len() != "7d"@.len());
        assert("24h"@[0] != "30d"@[0]);
        assert("24h"@[0] != "all"@[0]);
        assert("7d"@.len() != "30d"@.len());
        assert("7d"@.len() != "all"@.len());
        assert("30d"@[0] != "all"@[0]);
    }

    /// The wire literal, as sent in query strings.
    pub fn as_str(&self) -> (s: &'static str)
        ensures
            s@ == self.wire(),
    {
        match self {
            BestTokensPeriod::H24 => "24h",
            BestTokensPeriod::D7 => "7d",
            BestTokensPeriod::D30 => "30d",
            BestTokensPeriod::All => "all",
        }
    }
}

/// Ordering for one deployer's paginated launch history.
///
/// `PeakMcUsd` is a page-scoped sort: it orders the requested page only.
#[derive(Debug, Clone, Copy, PartialEq, Eq, Structural)]
pub enum DeployerTokensSort {
    FirstSeenAt,
    PeakMcUsd,
}

impl DeployerTokensSort {
    /// The wire literal the API uses for this value.
    pub open spec fn wire(self) -> Seq<char> {
        match self {
            DeployerTokensSort::FirstSeenAt => "first_seen_at"@,
            DeployerTokensSort::PeakMcUsd => "peak_mc_usd"@,
        }
    }

    /// Distinct values have distinct wire literals: the literal names the value.
    pub proof fn lemma_wire_injective(a: Self, b: Self)
        ensures
            a.wire() == b.wire() ==> a == b,
    {
        reveal_strlit("first_seen_at");
        reveal_strlit("peak_mc_usd");
        assert("first_seen_at"@.len() != "peak_mc_usd"@.len());
    }

    /// The wire literal, as sent in query strings.
    pub fn as_str(&self) -> (s: &'static str)
        ensures
            s@ == self.wire(),
    {
        match self {
            DeployerTokensSort::FirstSeenAt => "first_seen_at",
            DeployerTokensSort::PeakMcUsd => "peak_mc_usd",
        }
    }
}

/// Rolling window for KOL coordination.
#[derive(Debug, Clone, Copy, PartialEq, Eq, Structural)]
pub enum CoordinationPeriod {
    H1,
    H6,
    H24,
    D7,
}

impl CoordinationPeriod {
    /// The wire literal the API uses for this value.
    pub open spec fn wire(self) -> Seq<char> {
        match self {
            CoordinationPeriod::H1 => "1h"@,
            CoordinationPeriod::H6 => "6h"@,
            CoordinationPeriod::H24 => "24h"@,
            CoordinationPeriod::D7 => "7d"@,
        }
    }

    /// Distinct values have distinct wire literals: the literal names the value.
    pub proof fn lemma_wire_injective(a: Self, b: Self)
        ensures
            a.wire() == b.wire() ==> a == b,
    {
        reveal_strlit("1h");
        reveal_strlit("24h");
        reveal_strlit("6h");
        reveal_strlit("7d");
        assert("1h"@[0] != "6h"@[0]);
        assert("1h"@.len() != "24h"@.len());
        assert("1h"@[0] != "7d"@[0]);
        assert("6h"@.len() != "24h"@.len());
        assert("6h"@[0] != "7d"@[0]);
        assert("24h"@.len() != "7d"@.len());
    }

    /// The wire literal, as sent in query strings.
    pub fn as_str(&self) -> (s: &'static str)
        ensures
            s@ == self.wire(),
    {
        match self {
            CoordinationPeriod::H1 => "1h",
            CoordinationPeriod::H6 => "6h",
            CoordinationPeriod::H24 => "24h",
            CoordinationPeriod::D7 => "7d",
        }
    }
}

/// Deployer-alert kind (no `bonded`/`kol_buy` on Robinhood Chain).
#[derive(Debug, Clone, Copy, PartialEq, Eq, Structural)]
pub enum DeployerAlertType {
    NewDeploy,
    Graduated,
}

impl DeployerAlertType {
    /// The wire literal the API uses for this value.
    pub open spec fn wire(self) -> Seq<char> {
        match self {
            DeployerAlertType::NewDeploy => "new_deploy"@,
            DeployerAlertType::Graduated => "graduated"@,
        }
    }

    /// Distinct values have distinct wire literals: the literal names the value.
    pub proof fn lemma_wire_injective(a: Self, b: Self)
        ensures
            a.wire() == b.wire() ==> a == b,
    {
        reveal_strlit("graduated");
        reveal_strlit("new_deploy");
        assert("new_deploy"@.len() != "graduated"@.len());
    }

    /// The wire literal, as sent in query strings.
    pub fn as_str(&self) -> (s: &'static str)
        ensures
            s@ == self.wire(),
    {
        match self {
            DeployerAlertType::NewDeploy => "new_deploy",
            DeployerAlertType::Graduated => "graduated",
        }
    }
}

/// Deployer-alert priority (no `low` on Robinhood Chain).
#[derive(Debug, Clone, Copy, PartialEq, Eq, Structural)]
pub enum DeployerAlertPriority {
    High,
    Medium,
}

impl DeployerAlertPriority {
    /// The wire literal the API uses for this value.
    pub open spec fn wire(self) -> Seq<char> {
        match self {
            DeployerAlertPriority::High => "high"@,
            DeployerAlertPriority::Medium => "medium"@,
        }
    }

    /// Distinct values have distinct wire literals: the literal names the value.
    pub proof fn lemma_wire_injective(a: Self, b: Self)
        ensures
            a.wire() == b.wire() ==> a == b,
    {
        reveal_strlit("high");
        reveal_strlit("medium");
        assert("high"@.len() != "medium"@.len());
    }

    /// The wire literal, as sent in query strings.
    pub fn as_str(&self) -> (s: &'static str)
        ensures
            s@ == self.wire(),
    {
        match self {
            DeployerAlertPriority::High => "high",
            DeployerAlertPriority::Medium => "medium",
        }
    }
}

/// Direction of a KOL cohort's in-window flow on a coordination row.
#[derive(Debug, Clone, Copy, PartialEq, Eq, Structural)]
pub enum CoordinationSignal {
    Accumulating,
    Distributing,
}

/// Direction of a deployer's launch quality over time.
#[derive(Debug, Clone, Copy, PartialEq, Eq, Structural)]
pub enum TrajectoryTrend {
    Improving,
    Declining,
    Stable,
}

// ─── Query parameters ────────────────────────────────────────────────────────

/// Query parameters for `Kol::leaderboard`.
#[derive(Debug, Clone)]
pub struct KolLeaderboardParams {
    pub period: Option<KolLeaderboardPeriod>,
    pub limit: Option<u32>,
}

impl KolLeaderboardParams {
    /// Each present field is sent once, under its own name and with its own
    /// value, whatever the other fields hold; an absent field is not sent;
    /// no other key appears and no key appears twice.
    pub proof fn lemma_query_fields(self)
        ensures
            self.period matches Some(x) ==> self.query_view().contains(("period"@, x.wire())),
            self.period is None ==> forall|i: int| 0 <= i < self.query_view().len() ==> self.query_view()[i].0 != "period"@,
            self.limit matches Some(x) ==> self.query_view().contains(("limit"@, decimal(x as nat))),
            self.limit is None ==> forall|i: int| 0 <= i < self.query_view().len() ==> self.query_view()[i].0 != "limit"@,
            forall|i: int| 0 <= i < self.query_view().len() ==> (self.query_view()[i].0 == "period"@ || self.query_view()[i].0 == "limit"@),
            forall|i: int, j: int| 0 <= i < j < self.query_view().len() ==> self.query_view()[i].0 != self.query_view()[j].0,
            self.query_view().len() == (if self.period is Some { 1int } else { 0int }) + (if self.limit is Some { 1int } else { 0int }),
    {
        reveal_strlit("limit");
        reveal_strlit("period");
        assert("period"@.len() != "limit"@.len());
        if self.period is Some {
            let pos = 0int;
            assert(self.query_view()[pos] == ("period"@, self.period->0.wire()));
        }
        if self.limit is Some {
            let pos = (if self.period is Some { 1int } else { 0int });
            assert(self.query_view()[pos] == ("limit"@, decimal(self.limit->0 as nat)));
        }
    }

    /// The query pairs this value puts on the wire, in field order.
    pub open spec fn query_view(self) -> QueryView {
        opt_pair("period"@, match self.period { Some(x) => Some(x.wire()), None => None })
            + opt_pair("limit"@, opt_decimal(self.limit))
    }

    /// Builds the query pairs: each present field once, under its wire name.
    pub fn query_pairs(&self) -> (q: Vec<(String, String)>)
        ensures
            pairs_view(q@) == self.query_view(),
            self.period matches Some(x) ==> pairs_view(q@).contains(("period"@, x.wire())),
            self.period is None ==> forall|i: int| 0 <= i < pairs_view(q@).len() ==> pairs_view(q@)[i].0 != "period"@,
            self.limit matches Some(x) ==> pairs_view(q@).contains(("limit"@, decimal(x as nat))),
            self.limit is None ==> forall|i: int| 0 <= i < pairs_view(q@).len() ==> pairs_view(q@)[i].0 != "limit"@,
            forall|i: int| 0 <= i < pairs_view(q@).len() ==> (pairs_view(q@)[i].0 == "period"@ || pairs_view(q@)[i].0 == "limit"@),
            forall|i: int, j: int| 0 <= i < j < pairs_view(q@).len() ==> pairs_view(q@)[i].0 != pairs_view(q@)[j].0,
            pairs_view(q@).len() == (if self.period is Some { 1int } else { 0int }) + (if self.limit is Some { 1int } else { 0int }),
    {
        let mut q: Vec<(String, String)> = Vec::new();
        assert(pairs_view(q@) =~= Seq::empty());
        push_opt_literal(&mut q, "period", match self.period { Some(x) => Some(x.as_str()), None => None });
        push_opt_u32(&mut q, "limit", self.limit);
        assert(pairs_view(q@) =~= self.query_view());
        proof {
            self.lemma_query_fields();
        }
        q
    }
}

impl Default for KolLeaderboardParams {
    fn default() -> (p: Self)
        ensures
            p.period is None,
            p.limit is None,
    {
        KolLeaderboardParams { period: None, limit: None }
    }
}

/// Query parameters for `Kol::hot_tokens`.
#[derive(Debug, Clone)]
pub struct HotTokensParams {
    pub window: Option<HotTokensWindow>,
}

impl HotTokensParams {
    /// Each present field is sent once, under its own name and with its own
    /// value, whatever the other fields hold; an absent field is not sent;
    /// no other key appears and no key appears twice.
    pub proof fn lemma_query_fields(self)
        ensures
            self.window matches Some(x) ==> self.query_view().contains(("window"@, x.wire())),
            self.window is None ==> forall|i: int| 0 <= i < self.query_view().len() ==> self.query_view()[i].0 != "window"@,
            forall|i: int| 0 <= i < self.query_view().len() ==> (self.query_view()[i].0 == "window"@),
            forall|i: int, j: int| 0 <= i < j < self.query_view().len() ==> self.query_view()[i].0 != self.query_view()[j].0,
            self.query_view().len() == (if self.window is Some { 1int } else { 0int }),
    {
        reveal_strlit("window");
        if self.window is Some {
            let pos = 0int;
            assert(self.query_view()[pos] == ("window"@, self.window->0.wire()));
        }
    }

    /// The query pairs this value puts on the wire, in field order.
    pub open spec fn query_view(self) -> QueryView {
        opt_pair("window"@, match self.window { Some(x) => Some(x.wire()), None => None })
    }

    /// Builds the query pairs: each present field once, under its wire name.
    pub fn query_pairs(&self) -> (q: Vec<(String, String)>)
        ensures
            pairs_view(q@) == self.query_view(),
            self.window matches Some(x) ==> pairs_view(q@).contains(("window"@, x.wire())),
            self.window is None ==> forall|i: int| 0 <= i < pairs_view(q@).len() ==> pairs_view(q@)[i].0 != "window"@,
            forall|i: int| 0 <= i < pairs_view(q@).len() ==> (pairs_view(q@)[i].0 == "window"@),
            forall|i: int, j: int| 0 <= i < j < pairs_view(q@).len() ==> pairs_view(q@)[i].0 != pairs_view(q@)[j].0,
            pairs_view(q@).len() == (if self.window is Some { 1int } else { 0int }),
    {
        let mut q: Vec<(String, String)> = Vec::new();
        assert(pairs_view(q@) =~= Seq::empty());
        push_opt_literal(&mut q, "window", match self.window { Some(x) => Some(x.as_str()), None => None });
        assert(pairs_view(q@) =~= self.query_view());
        proof {
            self.lemma_query_fields();
        }
        q
    }
}

impl Default for HotTokensParams {
    fn default() -> (p: Self)
        ensures
            p.window is None,
    {
        HotTokensParams { window: None }
    }
}

/// Query parameters for `Tokens::candles`.
#[derive(Debug, Clone)]
pub struct CandlesParams {
    /// Number of candles (most recent first, returned chronological). 1..=1000, default 240.
    pub limit: Option<u32>,
    /// Lower bound on `bucket_start` (ISO 8601).
    pub from: Option<String>,
    /// Upper bound on `bucket_start` (ISO 8601).
    pub to: Option<String>,
}

impl CandlesParams {
    /// Each present field is sent once, under its own name and with its own
    /// value, whatever the other fields hold; an absent field is not sent;
    /// no other key appears and no key appears twice.
    pub proof fn lemma_query_fields(self)
        ensures
            self.limit matches Some(x) ==> self.query_view().contains(("limit"@, decimal(x as nat))),
            self.limit is None ==> forall|i: int| 0 <= i < self.query_view().len() ==> self.query_view()[i].0 != "limit"@,
            self.from matches Some(x) ==> self.query_view().contains(("from"@, x@)),
            self.from is None ==> forall|i: int| 0 <= i < self.query_view().len() ==> self.query_view()[i].0 != "from"@,
            self.to matches Some(x) ==> self.query_view().contains(("to"@, x@)),
            self.to is None ==> forall|i: int| 0 <= i < self.query_view().len() ==> self.query_view()[i].0 != "to"@,
            forall|i: int| 0 <= i < self.query_view().len() ==> (self.query_view()[i].0 == "limit"@ || self.query_view()[i].0 == "from"@ || self.query_view()[i].0 == "to"@),
            forall|i: int, j: int| 0 <= i < j < self.query_view().len() ==> self.query_view()[i].0 != self.query_view()[j].0,
            self.query_view().len() == (if self.limit is Some { 1int } else { 0int }) + (if self.from is Some { 1int } else { 0int }) + (if self.to is Some { 1int } else { 0int }),
    {
        reveal_strlit("from");
        reveal_strlit("limit");
        reveal_strlit("to");
        assert("limit"@.len() != "from"@.len());
        assert("limit"@.len() != "to"@.len());
        assert("from"@.len() != "to"@.len());
        if self.limit is Some {
            let pos = 0int;
            assert(self.query_view()[pos] == ("limit"@, decimal(self.limit->0 as nat)));
        }
        if self.from is Some {
            let pos = (if self.limit is Some { 1int } else { 0int });
            assert(self.query_view()[pos] == ("from"@, self.from->0@));
        }
        if self.to is Some {
            let pos = (if self.limit is Some { 1int } else { 0int }) + (if self.from is Some { 1int } else { 0int });
            assert(self.query_view()[pos] == ("to"@, self.to->0@));
        }
    }

    /// The query pairs this value puts on the wire, in field order.
    pub open spec fn query_view(self) -> QueryView {
        opt_pair("limit"@, opt_decimal(self.limit))
            + opt_pair("from"@, opt_text(self.from))
            + opt_pair("to"@, opt_text(self.to))
    }

    /// Builds the query pairs: each present field once, under its wire name.
    pub fn query_pairs(&self) -> (q: Vec<(String, String)>)
        ensures
            pairs_view(q@) == self.query_view(),
            self.limit matches Some(x) ==> pairs_view(q@).contains(("limit"@, decimal(x as nat))),
            self.limit is None ==> forall|i: int| 0 <= i < pairs_view(q@).len() ==> pairs_view(q@)[i].0 != "limit"@,
            self.from matches Some(x) ==> pairs_view(q@).contains(("from"@, x@)),
            self.from is None ==> forall|i: int| 0 <= i < pairs_view(q@).len() ==> pairs_view(q@)[i].0 != "from"@,
            self.to matches Some(x) ==> pairs_view(q@).contains(("to"@, x@)),
            self.to is None ==> forall|i: int| 0 <= i < pairs_view(q@).len() ==> pairs_view(q@)[i].0 != "to"@,
            forall|i: int| 0 <= i < pairs_view(q@).len() ==> (pairs_view(q@)[i].0 == "limit"@ || pairs_view(q@)[i].0 == "from"@ || pairs_view(q@)[i].0 == "to"@),
            forall|i: int, j: int| 0 <= i < j < pairs_view(q@).len() ==> pairs_view(q@)[i].0 != pairs_view(q@)[j].0,
            pairs_view(q@).len() == (if self.limit is Some { 1int } else { 0int }) + (if self.from is Some { 1int } else { 0int }) + (if self.to is Some { 1int } else { 0int }),
    {
        let mut q: Vec<(String, String)> = Vec::new();
        assert(pairs_view(q@) =~= Seq::empty());
        push_opt_u32(&mut q, "limit", self.limit);
        push_opt_text(&mut q, "from", &self.from);
        push_opt_text(&mut q, "to", &self.to);
        assert(pairs_view(q@) =~= self.query_view());
        proof {
            self.lemma_query_fields();
        }
        q
    }
}

impl Default for CandlesParams {
    fn default() -> (p: Self)
        ensures
            p.limit is None,
            p.from is None,
            p.to is None,
    {
        CandlesParams { limit: None, from: None, to: None }
    }
}

/// Query parameters for `DeployerHunter::leaderboard`.
#[derive(Debug, Clone)]
pub struct DeployerLeaderboardParams {
    pub sort: Option<DeployerLeaderboardSort>,
    /// Filter to one reputation tier.
    pub tier: Option<DeployerTier>,
    /// Minimum tokens deployed (1..=100000, default 3).
    pub min_tokens: Option<u32>,
    pub limit: Option<u32>,
    pub offset: Option<u32>,
}

impl DeployerLeaderboardParams {
    /// Each present field is sent once, under its own name and with its own
    /// value, whatever the other fields hold; an absent field is not sent;
    /// no other key appears and no key appears twice.
    pub proof fn lemma_query_fields(self)
        ensures
            self.sort matches Some(x) ==> self.query_view().contains(("sort"@, x.wire())),
            self.sort is None ==> forall|i: int| 0 <= i < self.query_view().len() ==> self.query_view()[i].0 != "sort"@,
            self.tier matches Some(x) ==> self.query_view().contains(("tier"@, x.wire())),
            self.tier is None ==> forall|i: int| 0 <= i < self.query_view().len() ==> self.query_view()[i].0 != "tier"@,
            self.min_tokens matches Some(x) ==> self.query_view().contains(("min_tokens"@, decimal(x as nat))),
            self.min_tokens is None ==> forall|i: int| 0 <= i < self.query_view().len() ==> self.query_view()[i].0 != "min_tokens"@,
            self.limit matches Some(x) ==> self.query_view().contains(("limit"@, decimal(x as nat))),
            self.limit is None ==> forall|i: int| 0 <= i < self.query_view().len() ==> self.query_view()[i].0 != "limit"@,
            self.offset matches Some(x) ==> self.query_view().contains(("offset"@, decimal(x as nat))),
            self.offset is None ==> forall|i: int| 0 <= i < self.query_view().len() ==> self.query_view()[i].0 != "offset"@,
            forall|i: int| 0 <= i < self.query_view().len() ==> (self.query_view()[i].0 == "sort"@ || self.query_view()[i].0 == "tier"@ || self.query_view()[i].0 == "min_tokens"@ || self.query_view()[i].0 == "limit"@ || self.query_view()[i].0 == "offset"@),
            forall|i: int, j: int| 0 <= i < j < self.query_view().len() ==> self.query_view()[i].0 != self.query_view()[j].0,
            self.query_view().len() == (if self.sort is Some { 1int } else { 0int }) + (if self.tier is Some { 1int } else { 0int }) + (if self.min_tokens is Some { 1int } else { 0int }) + (if self.limit is Some { 1int } else { 0int }) + (if self.offset is Some { 1int } else { 0int }),
    {
        reveal_strlit("limit");
        reveal_strlit("min_tokens");
        reveal_strlit("offset");
        reveal_strlit("sort");
        reveal_strlit("tier");
        assert("sort"@[0] != "tier"@[0]);
        assert("sort"@.len() != "min_tokens"@.len());
        assert("sort"@.len() != "limit"@.len());
        assert("sort"@.len() != "offset"@.len());
        assert("tier"@.len() != "min_tokens"@.len());
        assert("tier"@.len() != "limit"@.len());
        assert("tier"@.len() != "offset"@.len());
        assert("min_tokens"@.len() != "limit"@.len());
        assert("min_tokens"@.len() != "offset"@.len());
        assert("limit"@.len() != "offset"@.len());
        if self.sort is Some {
            let pos = 0int;
            assert(self.query_view()[pos] == ("sort"@, self.sort->0.wire()));
        }
        if self.tier is Some {
            let pos = (if self.sort is Some { 1int } else { 0int });
            assert(self.query_view()[pos] == ("tier"@, self.tier->0.wire()));
        }
        if self.min_tokens is Some {
            let pos = (if self.sort is Some { 1int } else { 0int }) + (if self.tier is Some { 1int } else { 0int });
            assert(self.query_view()[pos] == ("min_tokens"@, decimal(self.min_tokens->0 as nat)));
        }
        if self.limit is Some {
            let pos = (if self.sort is Some { 1int } else { 0int }) + (if self.tier is Some { 1int } else { 0int }) + (if self.min_tokens is Some { 1int } else { 0int });
            assert(self.query_view()[pos] == ("limit"@, decimal(self.limit->0 as nat)));
        }
        if self.offset is Some {
            let pos = (if self.sort is Some { 1int } else { 0int }) + (if self.tier is Some { 1int } else { 0int }) + (if self.min_tokens is Some { 1int } else { 0int }) + (if self.limit is Some { 1int } else { 0int });
            assert(self.query_view()[pos] == ("offset"@, decimal(self.offset->0 as nat)));
        }
    }

    /// The query pairs this value puts on the wire, in field order.
    pub open spec fn query_view(self) -> QueryView {
        opt_pair("sort"@, match self.sort { Some(x) => Some(x.wire()), None => None })
            + opt_pair("tier"@, match self.tier { Some(x) => Some(x.wire()), None => None })
            + opt_pair("min_tokens"@, opt_decimal(self.min_tokens))
            + opt_pair("limit"@, opt_decimal(self.limit))
            + opt_pair("offset"@, opt_decimal(self.offset))
    }

    /// Builds the query pairs: each present field once, under its wire name.
    pub fn query_pairs(&self) -> (q: Vec<(String, String)>)
        ensures
            pairs_view(q@) == self.query_view(),
            self.sort matches Some(x) ==> pairs_view(q@).contains(("sort"@, x.wire())),
            self.sort is None ==> forall|i: int| 0 <= i < pairs_view(q@).len() ==> pairs_view(q@)[i].0 != "sort"@,
            self.tier matches Some(x) ==> pairs_view(q@).contains(("tier"@, x.wire())),
            self.tier is None ==> forall|i: int| 0 <= i < pairs_view(q@).len() ==> pairs_view(q@)[i].0 != "tier"@,
            self.min_tokens matches Some(x) ==> pairs_view(q@).contains(("min_tokens"@, decimal(x as nat))),
            self.min_tokens is None ==> forall|i: int| 0 <= i < pairs_view(q@).len() ==> pairs_view(q@)[i].0 != "min_tokens"@,
            self.limit matches Some(x) ==> pairs_view(q@).contains(("limit"@, decimal(x as nat))),
            self.limit is None ==> forall|i: int| 0 <= i < pairs_view(q@).len() ==> pairs_view(q@)[i].0 != "limit"@,
            self.offset matches Some(x) ==> pairs_view(q@).contains(("offset"@, decimal(x as nat))),
            self.offset is None ==> forall|i: int| 0 <= i < pairs_view(q@).len() ==> pairs_view(q@)[i].0 != "offset"@,
            forall|i: int| 0 <= i < pairs_view(q@).len() ==> (pairs_view(q@)[i].0 == "sort"@ || pairs_view(q@)[i].0 == "tier"@ || pairs_view(q@)[i].0 == "min_tokens"@ || pairs_view(q@)[i].0 == "limit"@ || pairs_view(q@)[i].0 == "offset"@),
            forall|i: int, j: int| 0 <= i < j < pairs_view(q@).len() ==> pairs_view(q@)[i].0 != pairs_view(q@)[j].0,
            pairs_view(q@).len() == (if self.sort is Some { 1int } else { 0int }) + (if self.tier is Some { 1int } else { 0int }) + (if self.min_tokens is Some { 1int } else { 0int }) + (if self.limit is Some { 1int } else { 0int }) + (if self.offset is Some { 1int } else { 0int }),
    {
        let mut q: Vec<(String, String)> = Vec::new();
        assert(pairs_view(q@) =~= Seq::empty());
        push_opt_literal(&mut q, "sort", match self.sort { Some(x) => Some(x.as_str()), None => None });
        push_opt_literal(&mut q, "tier", match self.tier { Some(x) => Some(x.as_str()), None => None });
        push_opt_u32(&mut q, "min_tokens", self.min_tokens);
        push_opt_u32(&mut q, "limit", self.limit);
        push_opt_u32(&mut q, "offset", self.offset);
        assert(pairs_view(q@) =~= self.query_view());
        proof {
            self.lemma_query_fields();
        }
        q
    }
}

impl Default for DeployerLeaderboardParams {
    fn default() -> (p: Self)
        ensures
            p.sort is None,
            p.tier is None,
            p.min_tokens is None,
            p.limit is None,
            p.offset is None,
    {
        DeployerLeaderboardParams { sort: None, tier: None, min_tokens: None, limit: None, offset: None }
    }
}

/// Query parameters for `DeployerHunter::tokens`.
#[derive(Debug, Clone)]
pub struct DeployerTokensParams {
    /// Page size (1..=100, default 50).
    pub limit: Option<u32>,
    /// Page offset (0..=10000, default 0).
    pub offset: Option<u32>,
    pub sort: Option<DeployerTokensSort>,
}

impl DeployerTokensParams {
    /// Each present field is sent once, under its own name and with its own
    /// value, whatever the other fields hold; an absent field is not sent;
    /// no other key appears and no key appears twice.
    pub proof fn lemma_query_fields(self)
        ensures
            self.limit matches Some(x) ==> self.query_view().contains(("limit"@, decimal(x as nat))),
            self.limit is None ==> forall|i: int| 0 <= i < self.query_view().len() ==> self.query_view()[i].0 != "limit"@,
            self.offset matches Some(x) ==> self.query_view().contains(("offset"@, decimal(x as nat))),
            self.offset is None ==> forall|i: int| 0 <= i < self.query_view().len() ==> self.query_view()[i].0 != "offset"@,
            self.sort matches Some(x) ==> self.query_view().contains(("sort"@, x.wire())),
            self.sort is None ==> forall|i: int| 0 <= i < self.query_view().len() ==> self.query_view()[i].0 != "sort"@,
            forall|i: int| 0 <= i < self.query_view().len() ==> (self.query_view()[i].0 == "limit"@ || self.query_view()[i].0 == "offset"@ || self.query_view()[i].0 == "sort"@),
            forall|i: int, j: int| 0 <= i < j < self.query_view().len() ==> self.query_view()[i].0 != self.query_view()[j].0,
            self.query_view().len() == (if self.limit is Some { 1int } else { 0int }) + (if self.offset is Some { 1int } else { 0int }) + (if self.sort is Some { 1int } else { 0int }),
    {
        reveal_strlit("limit");
        reveal_strlit("offset");
        reveal_strlit("sort");
        assert("limit"@.len() != "offset"@.len());
        assert("limit"@.len() != "sort"@.len());
        assert("offset"@.len() != "sort"@.len());
        if self.limit is Some {
            let pos = 0int;
            assert(self.query_view()[pos] == ("limit"@, decimal(self.limit->0 as nat)));
        }
        if self.offset is Some {
            let pos = (if self.limit is Some { 1int } else { 0int });
            assert(self.query_view()[pos] == ("offset"@, decimal(self.offset->0 as nat)));
        }
        if self.sort is Some {
            let pos = (if self.limit is Some { 1int } else { 0int }) + (if self.offset is Some { 1int } else { 0int });
            assert(self.query_view()[pos] == ("sort"@, self.sort->0.wire()));
        }
    }

    /// The query pairs this value puts on the wire, in field order.
    pub open spec fn query_view(self) -> QueryView {
        opt_pair("limit"@, opt_decimal(self.limit))
            + opt_pair("offset"@, opt_decimal(self.offset))
            + opt_pair("sort"@, match self.sort { Some(x) => Some(x.wire()), None => None })
    }

    /// Builds the query pairs: each present field once, under its wire name.
    pub fn query_pairs(&self) -> (q: Vec<(String, String)>)
        ensures
            pairs_view(q@) == self.query_view(),
            self.limit matches Some(x) ==> pairs_view(q@).contains(("limit"@, decimal(x as nat))),
            self.limit is None ==> forall|i: int| 0 <= i < pairs_view(q@).len() ==> pairs_view(q@)[i].0 != "limit"@,
            self.offset matches Some(x) ==> pairs_view(q@).contains(("offset"@, decimal(x as nat))),
            self.offset is None ==> forall|i: int| 0 <= i < pairs_view(q@).len() ==> pairs_view(q@)[i].0 != "offset"@,
            self.sort matches Some(x) ==> pairs_view(q@).contains(("sort"@, x.wire())),
            self.sort is None ==> forall|i: int| 0 <= i < pairs_view(q@).len() ==> pairs_view(q@)[i].0 != "sort"@,
            forall|i: int| 0 <= i < pairs_view(q@).len() ==> (pairs_view(q@)[i].0 == "limit"@ || pairs_view(q@)[i].0 == "offset"@ || pairs_view(q@)[i].0 == "sort"@),
            forall|i: int, j: int| 0 <= i < j < pairs_view(q@).len() ==> pairs_view(q@)[i].0 != pairs_view(q@)[j].0,
            pairs_view(q@).len() == (if self.limit is Some { 1int } else { 0int }) + (if self.offset is Some { 1int } else { 0int }) + (if self.sort is Some { 1int } else { 0int }),
    {
        let mut q: Vec<(String, String)> = Vec::new();
        assert(pairs_view(q@) =~= Seq::empty());
        push_opt_u32(&mut q, "limit", self.limit);
        push_opt_u32(&mut q, "offset", self.offset);
        push_opt_literal(&mut q, "sort", match self.sort { Some(x) => Some(x.as_str()), None => None });
        assert(pairs_view(q@) =~= self.query_view());
        proof {
            self.lemma_query_fields();
        }
        q
    }
}

impl Default for DeployerTokensParams {
    fn default() -> (p: Self)
        ensures
            p.limit is None,
            p.offset is None,
            p.sort is None,
    {
        DeployerTokensParams { limit: None, offset: None, sort: None }
    }
}

/// Query parameters for `DeployerHunter::best_tokens`.
#[derive(Debug, Clone)]
pub struct BestTokensParams {
    pub period: Option<BestTokensPeriod>,
    /// Max tokens (1..=50, default 10).
    pub limit: Option<u32>,
}

impl BestTokensParams {
    /// Each present field is sent once, under its own name and with its own
    /// value, whatever the other fields hold; an absent field is not sent;
    /// no other key appears and no key appears twice.
    pub proof fn lemma_query_fields(self)
        ensures
            self.period matches Some(x) ==> self.query_view().contains(("period"@, x.wire())),
            self.period is None ==> forall|i: int| 0 <= i < self.query_view().len() ==> self.query_view()[i].0 != "period"@,
            self.limit matches Some(x) ==> self.query_view().contains(("limit"@, decimal(x as nat))),
            self.limit is None ==> forall|i: int| 0 <= i < self.query_view().len() ==> self.query_view()[i].0 != "limit"@,
            forall|i: int| 0 <= i < self.query_view().len() ==> (self.query_view()[i].0 == "period"@ || self.query_view()[i].0 == "limit"@),
            forall|i: int, j: int| 0 <= i < j < self.query_view().len() ==> self.query_view()[i].0 != self.query_view()[j].0,
            self.query_view().len() == (if self.period is Some { 1int } else { 0int }) + (if self.limit is Some { 1int } else { 0int }),
    {
        reveal_strlit("limit");
        reveal_strlit("period");
        assert("period"@.len() != "limit"@.len());
        if self.period is Some {
            let pos = 0int;
            assert(self.query_view()[pos] == ("period"@, self.period->0.wire()));
        }
        if self.limit is Some {
            let pos = (if self.period is Some { 1int } else { 0int });
            assert(self.query_view()[pos] == ("limit"@, decimal(self.limit->0 as nat)));
        }
    }

    /// The query pairs this value puts on the wire, in field order.
    pub open spec fn query_view(self) -> QueryView {
        opt_pair("period"@, match self.period { Some(x) => Some(x.wire()), None => None })
            + opt_pair("limit"@, opt_decimal(self.limit))
    }

    /// Builds the query pairs: each present field once, under its wire name.
    pub fn query_pairs(&self) -> (q: Vec<(String, String)>)
        ensures
            pairs_view(q@) == self.query_view(),
            self.period matches Some(x) ==> pairs_view(q@).contains(("period"@, x.wire())),
            self.period is None ==> forall|i: int| 0 <= i < pairs_view(q@).len() ==> pairs_view(q@)[i].0 != "period"@,
            self.limit matches Some(x) ==> pairs_view(q@).contains(("limit"@, decimal(x as nat))),
            self.limit is None ==> forall|i: int| 0 <= i < pairs_view(q@).len() ==> pairs_view(q@)[i].0 != "limit"@,
            forall|i: int| 0 <= i < pairs_view(q@).len() ==> (pairs_view(q@)[i].0 == "period"@ || pairs_view(q@)[i].0 == "limit"@),
            forall|i: int, j: int| 0 <= i < j < pairs_view(q@).len() ==> pairs_view(q@)[i].0 != pairs_view(q@)[j].0,
            pairs_view(q@).len() == (if self.period is Some { 1int } else { 0int }) + (if self.limit is Some { 1int } else { 0int }),
    {
        let mut q: Vec<(String, String)> = Vec::new();
        assert(pairs_view(q@) =~= Seq::empty());
        push_opt_literal(&mut q, "period", match self.period { Some(x) => Some(x.as_str()), None => None });
        push_opt_u32(&mut q, "limit", self.limit);
        assert(pairs_view(q@) =~= self.query_view());
        proof {
            self.lemma_query_fields();
        }
        q
    }
}

impl Default for BestTokensParams {
    fn default() -> (p: Self)
        ensures
            p.period is None,
            p.limit is None,
    {
        BestTokensParams { period: None, limit: None }
    }
}

/// Query parameters for `DeployerHunter::history`.
#[derive(Debug, Clone)]
pub struct DeployerHistoryParams {
    /// Page size (1..=1000, default 100).
    pub limit: Option<u32>,
    /// Page offset (0..=100000, default 0).
    pub offset: Option<u32>,
}

impl DeployerHistoryParams {
    /// Each present field is sent once, under its own name and with its own
    /// value, whatever the other fields hold; an absent field is not sent;
    /// no other key appears and no key appears twice.
    pub proof fn lemma_query_fields(self)
        ensures
            self.limit matches Some(x) ==> self.query_view().contains(("limit"@, decimal(x as nat))),
            self.limit is None ==> forall|i: int| 0 <= i < self.query_view().len() ==> self.query_view()[i].0 != "limit"@,
            self.offset matches Some(x) ==> self.query_view().contains(("offset"@, decimal(x as nat))),
            self.offset is None ==> forall|i: int| 0 <= i < self.query_view().len() ==> self.query_view()[i].0 != "offset"@,
            forall|i: int| 0 <= i < self.query_view().len() ==> (self.query_view()[i].0 == "limit"@ || self.query_view()[i].0 == "offset"@),
            forall|i: int, j: int| 0 <= i < j < self.query_view().len() ==> self.query_view()[i].0 != self.query_view()[j].0,
            self.query_view().len() == (if self.limit is Some { 1int } else { 0int }) + (if self.offset is Some { 1int } else { 0int }),
    {
        reveal_strlit("limit");
        reveal_strlit("offset");
        assert("limit"@.len() != "offset"@.len());
        if self.limit is Some {
            let pos = 0int;
            assert(self.query_view()[pos] == ("limit"@, decimal(self.limit->0 as nat)));
        }
        if self.offset is Some {
            let pos = (if self.limit is Some { 1int } else { 0int });
            assert(self.query_view()[pos] == ("offset"@, decimal(self.offset->0 as nat)));
        }
    }

    /// The query pairs this value puts on the wire, in field order.
    pub open spec fn query_view(self) -> QueryView {
        opt_pair("limit"@, opt_decimal(self.limit))
            + opt_pair("offset"@, opt_decimal(self.offset))
    }

    /// Builds the query pairs: each present field once, under its wire name.
    pub fn query_pairs(&self) -> (q: Vec<(String, String)>)
        ensures
            pairs_view(q@) == self.query_view(),
            self.limit matches Some(x) ==> pairs_view(q@).contains(("limit"@, decimal(x as nat))),
            self.limit is None ==> forall|i: int| 0 <= i < pairs_view(q@).len() ==> pairs_view(q@)[i].0 != "limit"@,
            self.offset matches Some(x) ==> pairs_view(q@).contains(("offset"@, decimal(x as nat))),
            self.offset is None ==> forall|i: int| 0 <= i < pairs_view(q@).len() ==> pairs_view(q@)[i].0 != "offset"@,
            forall|i: int| 0 <= i < pairs_view(q@).len() ==> (pairs_view(q@)[i].0 == "limit"@ || pairs_view(q@)[i].0 == "offset"@),
            forall|i: int, j: int| 0 <= i < j < pairs_view(q@).len() ==> pairs_view(q@)[i].0 != pairs_view(q@)[j].0,
            pairs_view(q@).len() == (if self.limit is Some { 1int } else { 0int }) + (if self.offset is Some { 1int } else { 0int }),
    {
        let mut q: Vec<(String, String)> = Vec::new();
        assert(pairs_view(q@) =~= Seq::empty());
        push_opt_u32(&mut q, "limit", self.limit);
        push_opt_u32(&mut q, "offset", self.offset);
        assert(pairs_view(q@) =~= self.query_view());
        proof {
            self.lemma_query_fields();
        }
        q
    }
}

impl Default for DeployerHistoryParams {
    fn default() -> (p: Self)
        ensures
            p.limit is None,
            p.offset is None,
    {
        DeployerHistoryParams { limit: None, offset: None }
    }
}

/// A params value whose fields are all absent puts nothing on the wire: the
/// default params of every endpoint send no query at all.
pub proof fn lemma_absent_fields_send_nothing(
    kol_leaderboard: KolLeaderboardParams,
    hot_tokens: HotTokensParams,
    candles: CandlesParams,
    deployer_leaderboard: DeployerLeaderboardParams,
    deployer_tokens: DeployerTokensParams,
    best_tokens: BestTokensParams,
    deployer_history: DeployerHistoryParams,
)
    requires
        kol_leaderboard.period is None && kol_leaderboard.limit is None,
        hot_tokens.window is None,
        candles.limit is None && candles.from is None && candles.to is None,
        deployer_leaderboard.sort is None && deployer_leaderboard.tier is None
            && deployer_leaderboard.min_tokens is None && deployer_leaderboard.limit is None
            && deployer_leaderboard.offset is None,
        deployer_tokens.limit is None && deployer_tokens.offset is None && deployer_tokens.sort is None,
        best_tokens.period is None && best_tokens.limit is None,
        deployer_history.limit is None && deployer_history.offset is None,
    ensures
        kol_leaderboard.query_view() == Seq::<(Seq<char>, Seq<char>)>::empty(),
        hot_tokens.query_view() == Seq::<(Seq<char>, Seq<char>)>::empty(),
        candles.query_view() == Seq::<(Seq<char>, Seq<char>)>::empty(),
        deployer_leaderboard.query_view() == Seq::<(Seq<char>, Seq<char>)>::empty(),
        deployer_tokens.query_view() == Seq::<(Seq<char>, Seq<char>)>::empty(),
        best_tokens.query_view() == Seq::<(Seq<char>, Seq<char>)>::empty(),
        deployer_history.query_view() == Seq::<(Seq<char>, Seq<char>)>::empty(),
{
    assert(kol_leaderboard.query_view() =~= Seq::empty());
    assert(hot_tokens.query_view() =~= Seq::empty());
    assert(candles.query_view() =~= Seq::empty());
    assert(deployer_leaderboard.query_view() =~= Seq::empty());
    assert(deployer_tokens.query_view() =~= Seq::empty());
    assert(best_tokens.query_view() =~= Seq::empty());
    assert(deployer_history.query_view() =~= Seq::empty());
}

// ─── Batch body ──────────────────────────────────────────────────────────────

/// JSON body for the two batch POST endpoints: `{"addresses": [...]}`.
#[derive(Debug, Clone)]
pub struct BatchAddressesRequest {
    pub addresses: Vec<String>,
}

impl Default for BatchAddressesRequest {
    fn default() -> (r: Self)
        ensures
            r.addresses@.len() == 0,
    {
        BatchAddressesRequest { addresses: Vec::new() }
    }
}

// ─── Response values ─────────────────────────────────────────────────────────

/// The KOL behind a first touch. `evm_address` is ULTRA/BUSINESS only.
#[derive(Debug, Clone)]
pub struct FirstTouchKol {
    /// ULTRA/BUSINESS only — omitted on lower tiers.
    pub evm_address: Option<String>,
    pub name: Option<String>,
    pub twitter_url: Option<String>,
}

/// Signal-availability block on a buyer-quality response.
#[derive(Debug, Clone)]
pub struct BuyerQualityCoverage {
    pub bundle_detection: Option<String>,
    pub dump_cluster_signal: Option<String>,
    pub note: Option<String>,
}

/// The trailing run at the end of a deployer's (chronological) launch history.
#[derive(Debug, Clone)]
pub struct TrajectoryStreak {
    /// `bond` (a graduation) | `fail` | `none`; `type` on the wire.
    pub kind: String,
    pub count: i64,
}

/// Population of one reputation tier.
#[derive(Debug, Clone, Copy, PartialEq, Eq, Structural)]
pub struct DeployerTierCount {
    pub deployers: i64,
    pub tokens: i64,
}

/// The active tier thresholds, so you can see what `elite` currently means.
#[derive(Debug, Clone)]
pub struct DeployerTierRules {
    /// Earned on the $100K `runner_rate`.
    pub elite: Option<String>,
    pub good: Option<String>,
    /// The one tier still keyed off `graduation_rate`.
    pub spammer: Option<String>,
    pub neutral: Option<String>,
}

/// A 24-hour WebSocket streaming token, as returned by `Stream::get_token`.
#[derive(Debug, Clone)]
pub struct StreamToken {
    pub token: String,
    pub expires_at: String,
    pub next_refresh_at: Option<String>,
    pub ws_url: String,
    /// Only present for ULTRA-tier subscribers.
    pub dex_ws_url: Option<String>,
    pub usage: Option<String>,
    pub _rid: Option<String>,
}

/// A single live WebSocket session for your account.
#[derive(Debug, Clone)]
pub struct StreamSession {
    /// Numeric session id (serialized as a string); pass to `Stream::kill_session`.
    pub id: String,
    /// Originating service: `"ws-streaming"` or `"dex-stream"`.
    pub service: String,
    pub tier: String,
    pub channels: Vec<String>,
    pub connected_at: String,
    pub remote_ip: Option<String>,
    /// Messages pushed to this socket so far.
    pub messages_sent: u64,
}

/// Response of `Stream::sessions`.
#[derive(Debug, Clone)]
pub struct StreamSessionsResponse {
    pub sessions: Vec<StreamSession>,
    pub count: u32,
    pub _rid: Option<String>,
}

/// Response of `Stream::kill_session`.
#[derive(Debug, Clone)]
pub struct StreamSessionEvicted {
    pub evicted: bool,
    pub id: String,
    pub _rid: Option<String>,
}

} // verus!
