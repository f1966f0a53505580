# tickpulse

The computing core of an A-share market monitor, written in Verus: every function in
`src/` carries a `requires`/`ensures` contract that Verus proves.

## Layout

- `src/` — the verified library.
  - `limit/` — board classification, price-limit rates, limit-up/limit-down prices
    (rounded up/down to the cent), effective trading time.
  - `datasource.rs` — per-source circuit breaker and the failover walk over sources.
  - `cache/` — cache TTL policy and the in-memory LRU level of the K-line cache.
  - `decimal.rs`, `db/position.rs` — exact decimal money arithmetic (through
    `rust_decimal`) and portfolio figures.
  - `analysis/` — PEG valuation, quality gate, checkpoints, decision records, auto-trigger
    rules, structured-output modes, LLM request/reply shaping, fallback chain and router,
    JSON extraction from model replies.
  - `health/`, `logging/` — sample windows for health metrics, the recent-log ring buffer.
  - `text.rs` — character-sequence helpers shared by the parsers.
- `tests/` — tests of the library, run against the compiled crate.
- `app/` — the program around the library: command handlers, HTTP clients, SQLite
  storage, scheduling loops, and the floating-point analyzers and indicators.
