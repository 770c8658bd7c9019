//! The `AlphaWallets` namespace.

use std::sync::Arc;
use vstd::prelude::*;
use crate::client::{ApiRequest, HttpCore, CallerParams};
use crate::query::{no_pairs};

verus! {

/// Smart-money wallet ranking on Robinhood Chain.
#[derive(Debug, Clone)]
pub struct AlphaWallets {
    pub core: Arc<HttpCore>,
}

impl AlphaWallets {
    /// Smart-money wallet ranking (`GET /rhc/alpha-wallets`, PRO+). The caller's
    /// `AlphaWalletsParams` go into the query string.
    pub fn list(&self) -> (r: ApiRequest)
        ensures
            r@ == self.core.get_plan("/rhc/alpha-wallets"@, Seq::empty(), CallerParams::Query),
    {
        self.core.get("/rhc/alpha-wallets", no_pairs(), CallerParams::Query)
    }
}

} // verus!
