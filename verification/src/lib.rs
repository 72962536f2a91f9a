//! Backend logic of a real-time crypto chart and scanner: candle histories,
//! scanner presets and filters, and the per-exchange rules for reading
//! market data.
pub mod num;
pub mod models;
pub mod state;
pub mod scanner;
pub mod text;
pub mod exchanges;
pub mod indicators;
pub mod api;
pub mod websocket;
pub mod json;
pub mod replies;
