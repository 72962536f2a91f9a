//! The scanner: filter conditions on the latest indicator readings of a
//! symbol, the presets that combine them, and the scan of a symbol list.
use vstd::prelude::*;
use crate::models::KlineData;
use crate::num::Double;

verus! {

/// A condition on the latest readings of a symbol. The conditions of a
/// preset are combined with AND.
#[derive(Clone, Copy, PartialEq, Debug)]
pub enum FilterCondition {
    /// RSI above the threshold (overbought, e.g. RSI > 75).
    RsiAbove(Double),
    /// RSI below the threshold (oversold, e.g. RSI < 25).
    RsiBelow(Double),
    /// Stochastic %K above the threshold.
    StochKAbove(Double),
    /// Stochastic %K below the threshold.
    StochKBelow(Double),
    /// %K above %D.
    StochKAboveD,
    /// %K below %D.
    StochKBelowD,
    /// Close above the moving average.
    CloseAboveSma,
    /// Close below the moving average.
    CloseBelowSma,
    /// Close above the upper Bollinger band.
    CloseAboveUpperBand,
    /// Close below the lower Bollinger band.
    CloseBelowLowerBand,
    /// MACD crossed above its signal: above it now, below it one candle ago.
    MacdCrossUp,
    /// MACD crossed below its signal: below it now, above it one candle ago.
    MacdCrossDown,
    /// MACD above its signal.
    MacdAboveSignal,
    /// MACD below its signal.
    MacdBelowSignal,
}

/// A named set of conditions, all of which must hold.
#[derive(Clone, Debug)]
pub struct ScannerPreset {
    /// The preset's identifier (e.g. "rsi_overbought").
    pub id: String,
    /// The name shown to the user.
    pub name: String,
    /// What the preset looks for.
    pub description: String,
    /// One of "overbought", "oversold", "trend_up", "trend_down", "multi".
    pub category: String,
    /// The conditions, combined with AND.
    pub conditions: Vec<FilterCondition>,
}

/// The latest readings of one symbol on one exchange.
#[derive(Clone, Debug)]
pub struct ScanResult {
    pub exchange: String,
    pub symbol: String,
    /// The latest close.
    pub price: Double,
    pub rsi: Option<Double>,
    pub stoch_k: Option<Double>,
    pub stoch_d: Option<Double>,
    pub macd: Option<Double>,
    pub macd_signal: Option<Double>,
    pub sma: Option<Double>,
    pub upper_band: Option<Double>,
    pub lower_band: Option<Double>,
    /// MACD one candle before the latest.
    pub prev_macd: Option<Double>,
    /// MACD signal one candle before the latest.
    pub prev_macd_signal: Option<Double>,
}

/// A reading that is present and above `t`.
pub open spec fn present_above(v: Option<Double>, t: Double) -> bool {
    v matches Some(x) && Double::above(x, t)
}

/// A reading that is present and below `t`.
pub open spec fn present_below(v: Option<Double>, t: Double) -> bool {
    v matches Some(x) && Double::below(x, t)
}

/// Two readings, both present, the first above the second.
pub open spec fn both_above(a: Option<Double>, b: Option<Double>) -> bool {
    a matches Some(x) && b matches Some(y) && Double::above(x, y)
}

/// Two readings, both present, the first below the second.
pub open spec fn both_below(a: Option<Double>, b: Option<Double>) -> bool {
    a matches Some(x) && b matches Some(y) && Double::below(x, y)
}

impl ScanResult {
    /// Whether the readings meet `c`. A condition whose readings are
    /// missing does not hold.
    pub open spec fn meets(self, c: FilterCondition) -> bool {
        match c {
            FilterCondition::RsiAbove(t) => present_above(self.rsi, t),
            FilterCondition::RsiBelow(t) => present_below(self.rsi, t),
            FilterCondition::StochKAbove(t) => present_above(self.stoch_k, t),
            FilterCondition::StochKBelow(t) => present_below(self.stoch_k, t),
            FilterCondition::StochKAboveD => both_above(self.stoch_k, self.stoch_d),
            FilterCondition::StochKBelowD => both_below(self.stoch_k, self.stoch_d),
            FilterCondition::CloseAboveSma => both_above(Some(self.price), self.sma),
            FilterCondition::CloseBelowSma => both_below(Some(self.price), self.sma),
            FilterCondition::CloseAboveUpperBand => both_above(Some(self.price), self.upper_band),
            FilterCondition::CloseBelowLowerBand => both_below(Some(self.price), self.lower_band),
            FilterCondition::MacdCrossUp => both_above(self.macd, self.macd_signal) && both_below(
                self.prev_macd,
                self.prev_macd_signal,
            ),
            FilterCondition::MacdCrossDown => both_below(self.macd, self.macd_signal) && both_above(
                self.prev_macd,
                self.prev_macd_signal,
            ),
            FilterCondition::MacdAboveSignal => both_above(self.macd, self.macd_signal),
            FilterCondition::MacdBelowSignal => both_below(self.macd, self.macd_signal),
        }
    }

    /// Whether the readings meet every condition of `conditions`.
    pub open spec fn meets_all(self, conditions: Seq<FilterCondition>) -> bool {
        forall|i: int| 0 <= i < conditions.len() ==> self.meets(#[trigger] conditions[i])
    }

    /// Evaluates one condition on these readings. A condition whose
    /// readings are missing does not hold.
    pub fn evaluate_condition(&self, condition: &FilterCondition) -> (r: bool)
        ensures
            r == self.meets(*condition),
    {
        match condition {
            FilterCondition::RsiAbove(threshold) => reading_above(self.rsi, threshold),
            FilterCondition::RsiBelow(threshold) => reading_below(self.rsi, threshold),
            FilterCondition::StochKAbove(threshold) => reading_above(self.stoch_k, threshold),
            FilterCondition::StochKBelow(threshold) => reading_below(self.stoch_k, threshold),
            FilterCondition::StochKAboveD => match (self.stoch_k, self.stoch_d) {
                (Some(k), Some(d)) => k.gt(&d),
                _ => false,
            },
            FilterCondition::StochKBelowD => match (self.stoch_k, self.stoch_d) {
                (Some(k), Some(d)) => k.lt(&d),
                _ => false,
            },
            FilterCondition::CloseAboveSma => match self.sma {
                Some(sma) => self.price.gt(&sma),
                None => false,
            },
            FilterCondition::CloseBelowSma => match self.sma {
                Some(sma) => self.price.lt(&sma),
                None => false,
            },
            FilterCondition::CloseAboveUpperBand => match self.upper_band {
                Some(upper) => self.price.gt(&upper),
                None => false,
            },
            FilterCondition::CloseBelowLowerBand => match self.lower_band {
                Some(lower) => self.price.lt(&lower),
                None => false,
            },
            FilterCondition::MacdCrossUp => match (
                self.macd,
                self.macd_signal,
                self.prev_macd,
                self.prev_macd_signal,
            ) {
                (Some(m), Some(s), Some(pm), Some(ps)) => m.gt(&s) && pm.lt(&ps),
                _ => false,
            },
            FilterCondition::MacdCrossDown => match (
                self.macd,
                self.macd_signal,
                self.prev_macd,
                self.prev_macd_signal,
            ) {
                (Some(m), Some(s), Some(pm), Some(ps)) => m.lt(&s) && pm.gt(&ps),
                _ => false,
            },
            FilterCondition::MacdAboveSignal => match (self.macd, self.macd_signal) {
                (Some(m), Some(s)) => m.gt(&s),
                _ => false,
            },
            FilterCondition::MacdBelowSignal => match (self.macd, self.macd_signal) {
                (Some(m), Some(s)) => m.lt(&s),
                _ => false,
            },
        }
    }

    /// Whether the readings meet every condition of the preset.
    pub fn matches_preset(&self, preset: &ScannerPreset) -> (r: bool)
        ensures
            r == self.meets_all(preset.conditions@),
    {
        self.meets_conditions(&preset.conditions)
    }

    /// Whether the readings meet every one of `conditions`.
    pub fn meets_conditions(&self, conditions: &Vec<FilterCondition>) -> (r: bool)
        ensures
            r == self.meets_all(conditions@),
    {
        let n = conditions.len();
        let mut i: usize = 0;
        while i < n
            invariant
                n == conditions@.len(),
                i <= n,
                forall|j: int| 0 <= j < i ==> self.meets(#[trigger] conditions@[j]),
            decreases n - i,
        {
            if !self.evaluate_condition(&conditions[i]) {
                return false;
            }
            i = i + 1;
        }
        true
    }
}

fn reading_above(v: Option<Double>, t: &Double) -> (r: bool)
    ensures
        r == present_above(v, *t),
{
    match v {
        Some(x) => x.gt(t),
        None => false,
    }
}

fn reading_below(v: Option<Double>, t: &Double) -> (r: bool)
    ensures
        r == present_below(v, *t),
{
    match v {
        Some(x) => x.lt(t),
        None => false,
    }
}

/// A condition whose readings are missing does not hold: on readings that
/// are all missing (only the price is there) no condition holds at all.
pub proof fn missing_readings_meet_nothing(r: ScanResult, c: FilterCondition)
    requires
        r.rsi is None,
        r.stoch_k is None,
        r.stoch_d is None,
        r.macd is None,
        r.macd_signal is None,
        r.sma is None,
        r.upper_band is None,
        r.lower_band is None,
        r.prev_macd is None,
        r.prev_macd_signal is None,
    ensures
        !r.meets(c),
{
}

/// Opposite conditions never hold together: no reading is both above and
/// below the same threshold, and no MACD crosses up and down at once.
pub proof fn opposite_conditions_exclude(r: ScanResult, t: Double)
    ensures
        !(r.meets(FilterCondition::RsiAbove(t)) && r.meets(FilterCondition::RsiBelow(t))),
        !(r.meets(FilterCondition::StochKAbove(t)) && r.meets(FilterCondition::StochKBelow(t))),
        !(r.meets(FilterCondition::StochKAboveD) && r.meets(FilterCondition::StochKBelowD)),
        !(r.meets(FilterCondition::CloseAboveSma) && r.meets(FilterCondition::CloseBelowSma)),
        !(r.meets(FilterCondition::MacdAboveSignal) && r.meets(FilterCondition::MacdBelowSignal)),
        !(r.meets(FilterCondition::MacdCrossUp) && r.meets(FilterCondition::MacdCrossDown)),
        r.meets(FilterCondition::MacdCrossUp) ==> r.meets(FilterCondition::MacdAboveSignal),
        r.meets(FilterCondition::MacdCrossDown) ==> r.meets(FilterCondition::MacdBelowSignal),
{
}

/// What each condition asks of the readings, reading by reading: an RSI or
/// %K threshold compares that reading with the threshold; the close
/// conditions compare the price with the SMA, the upper band or the lower
/// band (and with nothing else); a MACD cross asks that MACD be on one side
/// of its signal now and on the other side one candle earlier. A condition
/// whose readings are missing never holds.
pub proof fn conditions_read_their_readings(r: ScanResult, t: Double)
    ensures
        r.meets(FilterCondition::RsiAbove(t)) <==> (r.rsi matches Some(x) && Double::above(x, t)),
        r.meets(FilterCondition::RsiBelow(t)) <==> (r.rsi matches Some(x) && Double::above(t, x)),
        r.meets(FilterCondition::StochKAbove(t)) <==> (r.stoch_k matches Some(k) && Double::above(
            k,
            t,
        )),
        r.meets(FilterCondition::StochKBelow(t)) <==> (r.stoch_k matches Some(k) && Double::above(
            t,
            k,
        )),
        r.meets(FilterCondition::StochKAboveD) <==> (r.stoch_k matches Some(k) && r.stoch_d matches Some(
            d,
        ) && Double::above(k, d)),
        r.meets(FilterCondition::StochKBelowD) <==> (r.stoch_k matches Some(k) && r.stoch_d matches Some(
            d,
        ) && Double::above(d, k)),
        r.meets(FilterCondition::CloseAboveSma) <==> (r.sma matches Some(m) && Double::above(
            r.price,
            m,
        )),
        r.meets(FilterCondition::CloseBelowSma) <==> (r.sma matches Some(m) && Double::above(
            m,
            r.price,
        )),
        r.meets(FilterCondition::CloseAboveUpperBand) <==> (r.upper_band matches Some(u)
            && Double::above(r.price, u)),
        r.meets(FilterCondition::CloseBelowLowerBand) <==> (r.lower_band matches Some(l)
            && Double::above(l, r.price)),
        r.meets(FilterCondition::MacdAboveSignal) <==> (r.macd matches Some(m) && r.macd_signal matches Some(
            s,
        ) && Double::above(m, s)),
        r.meets(FilterCondition::MacdBelowSignal) <==> (r.macd matches Some(m) && r.macd_signal matches Some(
            s,
        ) && Double::above(s, m)),
        r.meets(FilterCondition::MacdCrossUp) <==> (r.macd matches Some(m) && r.macd_signal matches Some(
            s,
        ) && r.prev_macd matches Some(pm) && r.prev_macd_signal matches Some(ps) && Double::above(
            m,
            s,
        ) && Double::above(ps, pm)),
        r.meets(FilterCondition::MacdCrossDown) <==> (r.macd matches Some(m) && r.macd_signal matches Some(
            s,
        ) && r.prev_macd matches Some(pm) && r.prev_macd_signal matches Some(ps) && Double::above(
            s,
            m,
        ) && Double::above(pm, ps)),
{
}

/// A preset matches exactly when each of its conditions holds: adding a
/// condition can only narrow what matches.
pub proof fn more_conditions_match_less(r: ScanResult, conditions: Seq<FilterCondition>, extra: FilterCondition)
    ensures
        r.meets_all(conditions.push(extra)) <==> r.meets_all(conditions) && r.meets(extra),
{
    let more = conditions.push(extra);
    if r.meets_all(conditions) && r.meets(extra) {
        assert forall|i: int| 0 <= i < more.len() implies r.meets(#[trigger] more[i]) by {
            if i < conditions.len() {
                assert(more[i] == conditions[i]);
            }
        }
    }
    if r.meets_all(more) {
        assert(r.meets(more[more.len() - 1]));
        assert forall|i: int| 0 <= i < conditions.len() implies r.meets(#[trigger] conditions[i]) by {
            assert(more[i] == conditions[i]);
        }
    }
}

} // verus!

verus! {

/// Bits of the double 20.0.
pub const TWENTY: u64 = 0x4034_0000_0000_0000;
/// Bits of the double 25.0.
pub const TWENTY_FIVE: u64 = 0x4039_0000_0000_0000;
/// Bits of the double 30.0.
pub const THIRTY: u64 = 0x403e_0000_0000_0000;
/// Bits of the double 45.0.
pub const FORTY_FIVE: u64 = 0x4046_8000_0000_0000;
/// Bits of the double 55.0.
pub const FIFTY_FIVE: u64 = 0x404b_8000_0000_0000;
/// Bits of the double 70.0.
pub const SEVENTY: u64 = 0x4051_8000_0000_0000;
/// Bits of the double 75.0.
pub const SEVENTY_FIVE: u64 = 0x4052_c000_0000_0000;
/// Bits of the double 80.0.
pub const EIGHTY: u64 = 0x4054_0000_0000_0000;

/// Whether `p` has exactly these fields.
pub open spec fn preset_is(
    p: ScannerPreset,
    id: Seq<char>,
    name: Seq<char>,
    description: Seq<char>,
    category: Seq<char>,
    conditions: Seq<FilterCondition>,
) -> bool {
    &&& p.id@ == id
    &&& p.name@ == name
    &&& p.description@ == description
    &&& p.category@ == category
    &&& p.conditions@ == conditions
}

fn preset(
    id: &str,
    name: &str,
    description: &str,
    category: &str,
    conditions: Vec<FilterCondition>,
) -> (p: ScannerPreset)
    ensures
        preset_is(p, id@, name@, description@, category@, conditions@),
{
    ScannerPreset {
        id: String::from_str(id),
        name: String::from_str(name),
        description: String::from_str(description),
        category: String::from_str(category),
        conditions,
    }
}

fn threshold(bits: u64) -> (d: Double)
    ensures
        d.bits == bits,
{
    Double::from_bits(bits)
}

fn only(a: FilterCondition) -> (v: Vec<FilterCondition>)
    ensures
        v@ == seq![a],
{
    let mut v = Vec::new();
    v.push(a);
    v
}

fn pair(a: FilterCondition, b: FilterCondition) -> (v: Vec<FilterCondition>)
    ensures
        v@ == seq![a, b],
{
    let mut v = Vec::new();
    v.push(a);
    v.push(b);
    v
}

fn triple(a: FilterCondition, b: FilterCondition, c: FilterCondition) -> (v: Vec<FilterCondition>)
    ensures
        v@ == seq![a, b, c],
{
    let mut v = Vec::new();
    v.push(a);
    v.push(b);
    v.push(c);
    v
}

/// The built-in preset at position `i` of the list.
pub open spec fn is_default_preset(p: ScannerPreset, i: int) -> bool {
    if i == 0 {
        preset_is(p, "rsi_overbought"@, "RSI過熱"@, "RSI(14) > 75 で買われすぎ状態"@, "overbought"@,
            seq![FilterCondition::RsiAbove(Double { bits: SEVENTY_FIVE })])
    } else if i == 1 {
        preset_is(p, "stoch_overbought"@, "ストキャス過熱"@, "Stoch %K > 80 かつ %K < %D"@, "overbought"@,
            seq![FilterCondition::StochKAbove(Double { bits: EIGHTY }), FilterCondition::StochKBelowD])
    } else if i == 2 {
        preset_is(p, "bb_upper_break"@, "ボリバン上限突破"@, "終値 > ボリンジャーバンド上限"@, "overbought"@,
            seq![FilterCondition::CloseAboveUpperBand])
    } else if i == 3 {
        preset_is(p, "rsi_oversold"@, "RSI売られすぎ"@, "RSI(14) < 25 で売られすぎ状態"@, "oversold"@,
            seq![FilterCondition::RsiBelow(Double { bits: TWENTY_FIVE })])
    } else if i == 4 {
        preset_is(p, "stoch_oversold"@, "ストキャス売られすぎ"@, "Stoch %K < 20 かつ %K > %D"@, "oversold"@,
            seq![FilterCondition::StochKBelow(Double { bits: TWENTY }), FilterCondition::StochKAboveD])
    } else if i == 5 {
        preset_is(p, "bb_lower_break"@, "ボリバン下限突破"@, "終値 < ボリンジャーバンド下限"@, "oversold"@,
            seq![FilterCondition::CloseBelowLowerBand])
    } else if i == 6 {
        preset_is(p, "macd_golden_cross"@, "MACDゴールデンクロス"@, "MACDがシグナルを上抜け"@, "trend_up"@,
            seq![FilterCondition::MacdCrossUp])
    } else if i == 7 {
        preset_is(p, "price_above_sma"@, "価格がSMA上"@, "終値 > SMA(20)"@, "trend_up"@,
            seq![FilterCondition::CloseAboveSma])
    } else if i == 8 {
        preset_is(p, "strong_uptrend"@, "強い上昇トレンド"@, "RSI > 55 かつ 終値 > SMA"@, "trend_up"@,
            seq![FilterCondition::RsiAbove(Double { bits: FIFTY_FIVE }), FilterCondition::CloseAboveSma])
    } else if i == 9 {
        preset_is(p, "macd_dead_cross"@, "MACDデッドクロス"@, "MACDがシグナルを下抜け"@, "trend_down"@,
            seq![FilterCondition::MacdCrossDown])
    } else if i == 10 {
        preset_is(p, "price_below_sma"@, "価格がSMA下"@, "終値 < SMA(20)"@, "trend_down"@,
            seq![FilterCondition::CloseBelowSma])
    } else if i == 11 {
        preset_is(p, "strong_downtrend"@, "強い下降トレンド"@, "RSI < 45 かつ 終値 < SMA"@, "trend_down"@,
            seq![FilterCondition::RsiBelow(Double { bits: FORTY_FIVE }), FilterCondition::CloseBelowSma])
    } else if i == 12 {
        preset_is(p, "multi_buy_signal"@, "マルチ買いシグナル"@,
            "RSI < 30 かつ Stoch %K < 20 かつ ボリバン下限突破"@, "multi"@,
            seq![FilterCondition::RsiBelow(Double { bits: THIRTY }),
                FilterCondition::StochKBelow(Double { bits: TWENTY }),
                FilterCondition::CloseBelowLowerBand])
    } else if i == 13 {
        preset_is(p, "multi_sell_signal"@, "マルチ売りシグナル"@,
            "RSI > 70 かつ Stoch %K > 80 かつ ボリバン上限突破"@, "multi"@,
            seq![FilterCondition::RsiAbove(Double { bits: SEVENTY }),
                FilterCondition::StochKAbove(Double { bits: EIGHTY }),
                FilterCondition::CloseAboveUpperBand])
    } else {
        false
    }
}

/// The built-in presets: three overbought, three oversold, three uptrend,
/// three downtrend and two combined signals.
pub fn get_default_presets() -> (r: Vec<ScannerPreset>)
    ensures
        r.len() == 14,
        forall|i: int| 0 <= i < 14 ==> is_default_preset(#[trigger] r[i], i),
{
    let mut r: Vec<ScannerPreset> = Vec::new();
    // Overbought: candidates to sell.
    r.push(preset("rsi_overbought", "RSI過熱", "RSI(14) > 75 で買われすぎ状態", "overbought",
        only(FilterCondition::RsiAbove(threshold(SEVENTY_FIVE)))));
    r.push(preset("stoch_overbought", "ストキャス過熱", "Stoch %K > 80 かつ %K < %D", "overbought",
        pair(FilterCondition::StochKAbove(threshold(EIGHTY)), FilterCondition::StochKBelowD)));
    r.push(preset("bb_upper_break", "ボリバン上限突破", "終値 > ボリンジャーバンド上限", "overbought",
        only(FilterCondition::CloseAboveUpperBand)));
    // Oversold: candidates to buy.
    r.push(preset("rsi_oversold", "RSI売られすぎ", "RSI(14) < 25 で売られすぎ状態", "oversold",
        only(FilterCondition::RsiBelow(threshold(TWENTY_FIVE)))));
    r.push(preset("stoch_oversold", "ストキャス売られすぎ", "Stoch %K < 20 かつ %K > %D", "oversold",
        pair(FilterCondition::StochKBelow(threshold(TWENTY)), FilterCondition::StochKAboveD)));
    r.push(preset("bb_lower_break", "ボリバン下限突破", "終値 < ボリンジャーバンド下限", "oversold",
        only(FilterCondition::CloseBelowLowerBand)));
    // Uptrend.
    r.push(preset("macd_golden_cross", "MACDゴールデンクロス", "MACDがシグナルを上抜け", "trend_up",
        only(FilterCondition::MacdCrossUp)));
    r.push(preset("price_above_sma", "価格がSMA上", "終値 > SMA(20)", "trend_up",
        only(FilterCondition::CloseAboveSma)));
    r.push(preset("strong_uptrend", "強い上昇トレンド", "RSI > 55 かつ 終値 > SMA", "trend_up",
        pair(FilterCondition::RsiAbove(threshold(FIFTY_FIVE)), FilterCondition::CloseAboveSma)));
    // Downtrend.
    r.push(preset("macd_dead_cross", "MACDデッドクロス", "MACDがシグナルを下抜け", "trend_down",
        only(FilterCondition::MacdCrossDown)));
    r.push(preset("price_below_sma", "価格がSMA下", "終値 < SMA(20)", "trend_down",
        only(FilterCondition::CloseBelowSma)));
    r.push(preset("strong_downtrend", "強い下降トレンド", "RSI < 45 かつ 終値 < SMA", "trend_down",
        pair(FilterCondition::RsiBelow(threshold(FORTY_FIVE)), FilterCondition::CloseBelowSma)));
    // Combined signals.
    r.push(preset("multi_buy_signal", "マルチ買いシグナル",
        "RSI < 30 かつ Stoch %K < 20 かつ ボリバン下限突破", "multi",
        triple(
            FilterCondition::RsiBelow(threshold(THIRTY)),
            FilterCondition::StochKBelow(threshold(TWENTY)),
            FilterCondition::CloseBelowLowerBand,
        )));
    r.push(preset("multi_sell_signal", "マルチ売りシグナル",
        "RSI > 70 かつ Stoch %K > 80 かつ ボリバン上限突破", "multi",
        triple(
            FilterCondition::RsiAbove(threshold(SEVENTY)),
            FilterCondition::StochKAbove(threshold(EIGHTY)),
            FilterCondition::CloseAboveUpperBand,
        )));
    r
}

} // verus!

verus! {

/// A reading that is present and above the double whose bits are `bits`.
pub open spec fn reads_above(v: Option<Double>, bits: u64) -> bool {
    v matches Some(x) && Double::above(x, Double { bits })
}

/// A reading that is present and below the double whose bits are `bits`.
pub open spec fn reads_below(v: Option<Double>, bits: u64) -> bool {
    v matches Some(x) && Double::above(Double { bits }, x)
}

/// Two readings, both present, the first above the second.
pub open spec fn first_above(a: Option<Double>, b: Option<Double>) -> bool {
    a matches Some(x) && b matches Some(y) && Double::above(x, y)
}

/// What each built-in preset looks for in a symbol's readings, by its
/// place in the list (its identifier in brackets): RSI over 75
/// (`rsi_overbought`); %K over 80 and under %D (`stoch_overbought`); the
/// close over the upper band (`bb_upper_break`); RSI under 25
/// (`rsi_oversold`); %K under 20 and over %D (`stoch_oversold`); the close
/// under the lower band (`bb_lower_break`); MACD crossing above its signal,
/// above it now and below it one candle earlier (`macd_golden_cross`); the
/// close over the SMA (`price_above_sma`); RSI over 55 and the close over
/// the SMA (`strong_uptrend`); MACD crossing below its signal
/// (`macd_dead_cross`); the close under the SMA (`price_below_sma`); RSI
/// under 45 and the close under the SMA (`strong_downtrend`); RSI under 30,
/// %K under 20 and the close under the lower band (`multi_buy_signal`); RSI
/// over 70, %K over 80 and the close over the upper band
/// (`multi_sell_signal`).
pub proof fn default_presets_look_for(p: ScannerPreset, i: int, r: ScanResult)
    requires
        0 <= i < 14,
        is_default_preset(p, i),
    ensures
        i == 0 ==> p.id@ == "rsi_overbought"@,
        i == 1 ==> p.id@ == "stoch_overbought"@,
        i == 2 ==> p.id@ == "bb_upper_break"@,
        i == 3 ==> p.id@ == "rsi_oversold"@,
        i == 4 ==> p.id@ == "stoch_oversold"@,
        i == 5 ==> p.id@ == "bb_lower_break"@,
        i == 6 ==> p.id@ == "macd_golden_cross"@,
        i == 7 ==> p.id@ == "price_above_sma"@,
        i == 8 ==> p.id@ == "strong_uptrend"@,
        i == 9 ==> p.id@ == "macd_dead_cross"@,
        i == 10 ==> p.id@ == "price_below_sma"@,
        i == 11 ==> p.id@ == "strong_downtrend"@,
        i == 12 ==> p.id@ == "multi_buy_signal"@,
        i == 13 ==> p.id@ == "multi_sell_signal"@,
        i == 0 ==> (r.meets_all(p.conditions@) <==> reads_above(r.rsi, SEVENTY_FIVE)),
        i == 1 ==> (r.meets_all(p.conditions@) <==> reads_above(r.stoch_k, EIGHTY) && first_above(
            r.stoch_d,
            r.stoch_k,
        )),
        i == 2 ==> (r.meets_all(p.conditions@) <==> first_above(Some(r.price), r.upper_band)),
        i == 3 ==> (r.meets_all(p.conditions@) <==> reads_below(r.rsi, TWENTY_FIVE)),
        i == 4 ==> (r.meets_all(p.conditions@) <==> reads_below(r.stoch_k, TWENTY) && first_above(
            r.stoch_k,
            r.stoch_d,
        )),
        i == 5 ==> (r.meets_all(p.conditions@) <==> first_above(r.lower_band, Some(r.price))),
        i == 6 ==> (r.meets_all(p.conditions@) <==> first_above(r.macd, r.macd_signal) && first_above(
            r.prev_macd_signal,
            r.prev_macd,
        )),
        i == 7 ==> (r.meets_all(p.conditions@) <==> first_above(Some(r.price), r.sma)),
        i == 8 ==> (r.meets_all(p.conditions@) <==> reads_above(r.rsi, FIFTY_FIVE) && first_above(
            Some(r.price),
            r.sma,
        )),
        i == 9 ==> (r.meets_all(p.conditions@) <==> first_above(r.macd_signal, r.macd) && first_above(
            r.prev_macd,
            r.prev_macd_signal,
        )),
        i == 10 ==> (r.meets_all(p.conditions@) <==> first_above(r.sma, Some(r.price))),
        i == 11 ==> (r.meets_all(p.conditions@) <==> reads_below(r.rsi, FORTY_FIVE) && first_above(
            r.sma,
            Some(r.price),
        )),
        i == 12 ==> (r.meets_all(p.conditions@) <==> reads_below(r.rsi, THIRTY) && reads_below(
            r.stoch_k,
            TWENTY,
        ) && first_above(r.lower_band, Some(r.price))),
        i == 13 ==> (r.meets_all(p.conditions@) <==> reads_above(r.rsi, SEVENTY) && reads_above(
            r.stoch_k,
            EIGHTY,
        ) && first_above(Some(r.price), r.upper_band)),
{
    let c = p.conditions@;
    assert(r.meets_all(c) <==> forall|k: int| 0 <= k < c.len() ==> r.meets(#[trigger] c[k]));
    if c.len() >= 1 {
        assert(r.meets_all(c) ==> r.meets(c[0]));
    }
    if c.len() >= 2 {
        assert(r.meets_all(c) ==> r.meets(c[1]));
    }
    if c.len() >= 3 {
        assert(r.meets_all(c) ==> r.meets(c[2]));
    }
}

} // verus!
