# polybot

Decision logic of a directional trading bot for 15-minute and hourly BTC/ETH/SOL/XRP
up-or-down prediction markets, written in Verus: the functions in `src/` carry contracts
that Verus proves. Four small wrappers around outside calls have contracts that are
trusted, not proved: `parse_rfc3339_seconds` and `format_utc_date` (chrono),
`parse_stats_fields` (serde_json) and `string_push` (`String::push`).

Layout:

- `src/markets.rs` – what a market slug or question names: timeframe, asset, outcome direction.
- `src/data_client.rs` – market-data endpoints, market metadata from questions, crypto-event
  selection, price-history windows (dates read with `chrono`), when a download stops and
  which tokens give trade samples.
- `src/dataset.rs` – the split of a dataset into training and testing periods.
- `src/bootstrap.rs` – choice of a fallback market and token when seeding candle history,
  the query bounds and the order of the price-history fallbacks.
- `src/history.rs` – history timestamps, candle windows, de-duplication of candles.
- `src/price_files.rs` – which daily price files are read (dates formatted with `chrono`)
  how their `timestamp,asset,price` lines are read, and the rows' time order.
- `src/filters.rs` – the entry filters, their statistics, threshold optimization and learnt hours.
- `src/config.rs` – configuration of the learning engine and its conversion from file settings.
- `src/strategy.rs` – dispatch between the indicator engine and the learning engine.
- `src/startup.rs`, `src/state_files.rs` – command-line options, the start-up reset decision,
  state-file paths and the counters restored from the saved state (read with `serde_json`).
- `src/features.rs` – names of the model features.
- `src/laws.rs` – properties that span several functions.
- `app/` – the program around the library: HTTP requests, files, logging, and the
  floating-point parts (feature vectors, probability calibration, datasets).

Fractional quantities in the library are fixed-point integers counting millionths of the
unit (`config::SCALE`); `app/` converts at its edge.
