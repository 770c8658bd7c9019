//! The namespaced endpoint groups. Each method plans one request: the HTTP
//! method, the URL under the base, the query and the body.

pub mod alpha_wallets;
pub mod copytrade;
pub mod deployer_hunter;
pub mod kol;
pub mod price_alerts;
pub mod stream;
pub mod tokens;
pub mod trades;
pub mod wallet;

use vstd::prelude::*;

verus! {

/// A copy of `src`, string for string.
pub fn copy_strings(src: &[String]) -> (v: Vec<String>)
    ensures
        v@ == src@,
{
    let mut v: Vec<String> = Vec::new();
    let n = src.len();
    for i in 0..n
        invariant
            n == src@.len(),
            v@ == src@.take(i as int),
    {
        let s = src[i].clone();
        v.push(s);
        assert(v@ =~= src@.take(i + 1));
    }
    assert(src@.take(n as int) =~= src@);
    v
}

} // verus!
