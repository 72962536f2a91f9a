//! The data the library moves around: candles, candles with their indicator
//! readings, and the messages of a combined kline stream.
use vstd::prelude::*;
use crate::num::Double;

verus! {

/// One candle (kline): its opening time in Unix milliseconds and its
/// open, high, low, close and volume.
#[derive(Clone, Copy, PartialEq, Debug)]
pub struct KlineData {
    pub time: i64,
    pub open: Double,
    pub high: Double,
    pub low: Double,
    pub close: Double,
    pub volume: Double,
}

/// A candle together with the indicator readings at its place in a series.
/// A reading is `None` where the indicator has not seen enough candles yet.
#[derive(Clone, Debug)]
pub struct KlineWithIndicator {
    pub symbol: String,
    pub kline: KlineData,
    pub sma: Option<Double>,
    pub upper_band: Option<Double>,
    pub lower_band: Option<Double>,
    pub rsi: Option<Double>,
    pub macd: Option<Double>,
    pub macd_signal: Option<Double>,
    pub macd_hist: Option<Double>,
    pub stoch_k: Option<Double>,
    pub stoch_d: Option<Double>,
}

/// One kline event of a stream: the symbol it belongs to and the candle.
#[derive(Clone, Debug)]
pub struct KlineMessage {
    pub symbol: String,
    pub kline: KlineData,
}

/// A message of a combined stream: the stream's name and the event it carries.
#[derive(Clone, Debug)]
pub struct CombinedStreamPayload {
    pub stream: String,
    pub data: KlineMessage,
}

impl CombinedStreamPayload {
    /// The symbol and candle that the message carries.
    pub fn into_update(self) -> (r: (String, KlineData))
        ensures
            r.0@ == self.data.symbol@,
            r.1 == self.data.kline,
    {
        (self.data.symbol, self.data.kline)
    }
}

} // verus!
