//! The parameters of the technical indicators, and which of their readings
//! a chart shows: an indicator says nothing until it has seen enough
//! candles, so its first readings are hidden.
use vstd::prelude::*;
use crate::num::Double;

verus! {

/// The RSI period of charts and scans.
pub const RSI_PERIOD: usize = 14;
/// The fast EMA period of the MACD.
pub const MACD_FAST: usize = 12;
/// The slow EMA period of the MACD.
pub const MACD_SLOW: usize = 26;
/// The signal period of the MACD.
pub const MACD_SIGNAL: usize = 9;
/// The look-back period of the stochastic oscillator.
pub const STOCH_PERIOD: usize = 14;
/// The smoothing of the slow %K.
pub const STOCH_SMOOTH_K: usize = 3;
/// The smoothing of the slow %D.
pub const STOCH_SMOOTH_D: usize = 3;

/// A series with its first `warm_up` readings hidden.
pub open spec fn masked(raw: Seq<Double>, warm_up: nat) -> Seq<Option<Double>> {
    Seq::new(raw.len(), |i: int| if i < warm_up { None } else { Some(raw[i]) })
}

/// Hides the first `warm_up` readings of `raw`; the others are kept, at
/// their places.
pub fn mask_warm_up(raw: &Vec<Double>, warm_up: usize) -> (r: Vec<Option<Double>>)
    ensures
        r@ == masked(raw@, warm_up as nat),
{
    let mut r: Vec<Option<Double>> = Vec::with_capacity(raw.len());
    let mut i: usize = 0;
    while i < raw.len()
        invariant
            i <= raw.len(),
            r@ =~= masked(raw@.take(i as int), warm_up as nat),
        decreases raw.len() - i,
    {
        if i < warm_up {
            r.push(None);
        } else {
            r.push(Some(raw[i]));
        }
        i = i + 1;
    }
    assert(raw@.take(raw.len() as int) =~= raw@);
    r
}

/// How many readings a moving average (or a Bollinger band) of `period`
/// candles hides: all before its first full window.
pub fn sma_warm_up(period: usize) -> (r: usize)
    requires
        period >= 1,
    ensures
        r == period - 1,
{
    period - 1
}

/// How many readings an RSI of `period` hides: it needs `period` changes,
/// so one candle more than its window.
pub fn rsi_warm_up(period: usize) -> (r: usize)
    ensures
        r == period,
{
    period
}

/// How many readings a MACD hides: all before the slow average's first
/// full window.
pub fn macd_warm_up(slow_period: usize) -> (r: usize)
    requires
        slow_period >= 1,
    ensures
        r == slow_period - 1,
{
    slow_period - 1
}

/// How many readings the slow stochastic hides.
pub fn stoch_warm_up(period: usize) -> (r: usize)
    ensures
        r == period,
{
    period
}

} // verus!
