# crypto_checker

The logic of a Cloudflare Worker that returns the average crypto price across
several exchanges (Binance, Bitstamp, Bybit, Coinbase Exchange, Gate, Kraken,
OKX), verified with Verus.

- `src/providers.rs`: each exchange's ticker URL and where its best ask and bid
  stand in its JSON answer; reading a quote out of an answer.
- `src/json.rs`: the JSON document model and the steps into it; parsing goes
  through `serde_json`.
- `src/price.rs`: reading a request URL's query, the checks on it, the settings, and the
  rule that at least two exchanges must answer.
- `src/errors.rs`: the errors and the problem report (title, status, detail)
  that answers each.
- `src/text.rs`: joining, decimal digits, upper-casing and integer parsing.
- `src/laws.rs`: properties that span functions.
- `app/`: the Worker itself: routing, requests, the KV store, and the
  floating-point mid prices and mean.
