# strategy_runtime

The decision logic of a set of MOEX trading strategies, written in Verus and proved
against its contracts: what each strategy does with bars, acknowledgements, order and
position updates, bootstrap snapshots and restored state, and which orders it sends.

Layout:

- `src/` — the verified library.
  - `alor_skeleton`, `market_buy_and_close`, `mock_live_probe`, `alor_usdrubf_hybrid`,
    `hybrid_intraday_runtime`, `ri_author41_42_live`, `moex_author41_42`: one module per
    strategy or model family; `ri_live_bar` holds the RI live adapter's per-bar decisions
    on its own model positions, `alor_paper_bar` and `alor_warmup` the USD/RUB hybrid's
    paper bar step and history warm-up, `alor_on_bar` its whole bar step, and
    `hybrid_on_bar` the intraday runtime's bar step around its signal engine.
  - `host`: the event and order vocabulary shared by the strategies.
  - `clock`: local times, days and their texts, computed with chrono behind trusted
    wrappers.
  - `text`, `idset`, `sat`: verified text handling, sets kept in vectors, and saturating
    arithmetic.
- `tests/` — tests of the library on concrete values.
- `app/` — what stays outside the proofs: price arithmetic in floating point, the author41
  research replay, CSV loading, request ids, and serde copies of library types (with the
  JSON form of the RI observation journal).

Quantities are whole lots and prices are not modelled in the library; where a decision
needs a price level, the library says which level and the caller prices the order.

The USD/RUB hybrid strategy's research model (session VWAP, scale and signal bands) works
on prices; its caller evaluates it and hands the strategy's live or paper bar step the
exit reason, the signal and the entry sizes, and feeds the day aggregates with the bars
that warm-up marks as aggregated, while the replay guard, the order tracking, the holdings, the
live orders and the persisted state are the library's.

The RI live adapter's price model (daily anchors, breakout levels, stops) reads each model
bar and hands `on_model_bar` its exit, entry and stop signals; the book of the adapter's
model positions is the caller's, which clears it when the strategy drops its live
positions.

The USD/RUB hybrid strategy protects an open mean-reversion position with a bracket: the
library decides which take-profit and stop-loss legs go out, on which side, for how many
lots, with which comment and lifetime, and marks them in flight; the caller prices them at
the position's take and stop levels.
