# robinhood-chain

Client for the MadeOnSol Robinhood Chain API (chain id 4663), with its
decisions verified in Verus.

- `src/` — the verified library. `RobinhoodChain::new` checks the `msk_` API
  key; each namespace method (`client.kol.feed()`, `client.tokens.candles(..)`,
  ...) plans its request: HTTP method, URL, bearer key, headers, query pairs
  and body; `client::HttpCore::handle` classifies a response from its status
  code and body text. `types` holds the wire vocabulary (`as_str`), the query
  encoding of the params types and the plain response values.
- `app/` — the asynchronous `reqwest` transport that performs planned
  requests, the typed `Client` (`client.kol.feed(&params).await`) built on it, the serde forms of every request and response type (including
  those with floating-point fields), and the error type's `Display`.
- `tests/` — route table, query encoding, response classification and wire
  literals on concrete values.
