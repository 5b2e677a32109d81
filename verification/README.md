# flowsurface

The market-data logic of an order-flow charting application, written in
Verus and proved against its contracts.

- `src/` is the verified library:
  - `exchange/`: fixed-window and header-driven rate limiters, the order
    book and its snapshot/diff rules, Binance depth-stream synchronisation and its state,
    stream names, fetch windows and request pacing, and the reading of
    the exchange information (its JSON parsed by `serde_json`).
  - `exchanges/`: timeframes, the packed ticker symbol, venues and stream
    configuration, the local depth cache.
  - `data/`: time series of klines (integrity checks, trade gaps, cleanup),
    tick bars, indicators offered per market, footprint studies and naked
    points of control, sidebar and pane settings.
  - `chart/`, `charts/`: time-axis label steps, the study card, the
    requests a chart makes for missing data, and trimming of the time and
    sales buffer, the autoscale toggle.
  - `text.rs`: the string helpers the above rely on.
  Every public operation states its result exactly; the properties that
  relate several operations are public `law_*` proof functions.
- `tests/` runs the library on concrete values.
- `app/` holds what works on floating-point prices (klines and tick bars
  built from trades, footprints, formatting), reads the clocks, and
  (de)serialises settings, calling the library for the decisions.

Prices are carried in the library as `u32` keys that order as the prices
do (`app/` makes them from the `f32` values, with -0.0 taken as 0.0), and
quantities as the bit patterns of their `f32` values. Times are
milliseconds.
