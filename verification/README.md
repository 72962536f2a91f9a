# rust_chart_lib

The backend of Rust-Chart Pro, a Tauri dashboard that charts crypto candles
from eight exchanges with technical indicators, follows live klines, and
scans symbols with indicator presets.

- `src/` is the library, verified with Verus. Prices and readings are carried
  as IEEE-754 bit patterns (`num::Double`) and compared as IEEE-754 does.
  - `state`: per-symbol candle histories (at most 2000 candles; a tick at the
    newest candle's time replaces it) and the indicator settings.
  - `scanner`: filter conditions, their evaluation, the built-in presets.
  - `api`: joining candles with indicator readings; finding a preset; the scan
    session that keeps the symbols matching a preset.
  - `exchanges`: each exchange's identifier, intervals, USDT listing filter,
    candle row layouts, stream messages and subscriptions.
  - `indicators`: indicator parameters and warm-up masking.
  - `replies`: where each exchange's REST answers keep their instrument lists
    and candle rows, and the errors of answers that keep none.
  - `json`: JSON text as the library reads it (parsed by `serde_json`), and
    the fields of the stream messages.
  - `websocket`: splitting symbols among connections; the listener's reactions.
  - `text`, `num`, `models`: text operations, doubles, shared data types.
- `app/` is the Tauri program: HTTP and WebSocket I/O, the
  floating-point indicator arithmetic (crate `ta`), and serde forms of the
  library's types.
- `tests/` exercises the library.
