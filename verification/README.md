# indicators

A service that computes technical indicators (Bollinger bands, moving
averages, drawdowns, ...) over price series, with its request handling
verified in Verus.

- `src/` is the verified library: decoding of the indicator a request names
  (`grpc/types.rs`), the plan for each request and each indicator's window and
  time stamps (`grpc/indicator_service.rs`, `timeline.rs`), the refusal of
  requests that name no indicator, and the loading of the settings
  (`settings.rs`, `error.rs`).
- `app/` is the program around it: logging, the server, the floating-point
  computation of the indicators and the candlestick patterns.
- `tests/` runs the library on concrete values.

`app/` does not build as it stands: the indicators it runs come from a crate
named `calculate` (with `calculate::indicators` and the trait `Next`) that is
not available here (the registry's `calculate` is an unrelated expression
calculator), and the protocol description `proto/indicators.proto` from which
the gRPC service would be generated is not part of this crate either.
