//! The decisions behind the application's requests: joining candles with
//! their indicator readings for a chart, and running a scanner preset over
//! an exchange's symbols.
use vstd::prelude::*;
use crate::models::{KlineData, KlineWithIndicator};
use crate::num::Double;
use crate::scanner::{
    get_default_presets, is_default_preset, FilterCondition, ScanResult, ScannerPreset,
};
use crate::text::same_text;

verus! {

/// The moving average and band period of a scan.
pub const SCAN_PERIOD: usize = 20;
/// Bits of 2.0, the band width of a scan.
pub const SCAN_BAND_WIDTH: u64 = 0x4000_0000_0000_0000;
/// A symbol with fewer candles than this is left out of a scan.
pub const MIN_SCAN_CANDLES: usize = 30;

/// The indicator readings of a candle series, one per candle of each
/// series, `None` where an indicator has not warmed up.
#[derive(Clone, Debug)]
pub struct IndicatorSeries {
    pub sma: Vec<Option<Double>>,
    pub upper_band: Vec<Option<Double>>,
    pub lower_band: Vec<Option<Double>>,
    pub rsi: Vec<Option<Double>>,
    pub macd: Vec<Option<Double>>,
    pub macd_signal: Vec<Option<Double>>,
    pub macd_hist: Vec<Option<Double>>,
    pub stoch_k: Vec<Option<Double>>,
    pub stoch_d: Vec<Option<Double>>,
}

impl IndicatorSeries {
    /// Every series has `n` readings.
    pub open spec fn covers(self, n: nat) -> bool {
        &&& self.sma.len() == n
        &&& self.upper_band.len() == n
        &&& self.lower_band.len() == n
        &&& self.rsi.len() == n
        &&& self.macd.len() == n
        &&& self.macd_signal.len() == n
        &&& self.macd_hist.len() == n
        &&& self.stoch_k.len() == n
        &&& self.stoch_d.len() == n
    }

    /// `row` is the `i`-th candle of a chart of `symbol`, with the `i`-th
    /// reading of every indicator.
    pub open spec fn is_row(self, row: KlineWithIndicator, symbol: Seq<char>, kline: KlineData, i: int) -> bool {
        &&& row.symbol@ == symbol
        &&& row.kline == kline
        &&& row.sma == self.sma[i]
        &&& row.upper_band == self.upper_band[i]
        &&& row.lower_band == self.lower_band[i]
        &&& row.rsi == self.rsi[i]
        &&& row.macd == self.macd[i]
        &&& row.macd_signal == self.macd_signal[i]
        &&& row.macd_hist == self.macd_hist[i]
        &&& row.stoch_k == self.stoch_k[i]
        &&& row.stoch_d == self.stoch_d[i]
    }
}

/// The rows of a chart: each candle of `klines` with the readings at its
/// place.
pub fn combine(symbol: &str, klines: &Vec<KlineData>, series: &IndicatorSeries) -> (r: Vec<KlineWithIndicator>)
    requires
        series.covers(klines.len() as nat),
    ensures
        r.len() == klines.len(),
        forall|i: int| 0 <= i < klines.len() ==> series.is_row(#[trigger] r[i], symbol@, klines[i], i),
{
    let mut r: Vec<KlineWithIndicator> = Vec::with_capacity(klines.len());
    let mut i: usize = 0;
    while i < klines.len()
        invariant
            series.covers(klines.len() as nat),
            i <= klines.len(),
            r.len() == i,
            forall|j: int| 0 <= j < i ==> series.is_row(#[trigger] r[j], symbol@, klines[j], j),
        decreases klines.len() - i,
    {
        r.push(KlineWithIndicator {
            symbol: String::from_str(symbol),
            kline: klines[i],
            sma: series.sma[i],
            upper_band: series.upper_band[i],
            lower_band: series.lower_band[i],
            rsi: series.rsi[i],
            macd: series.macd[i],
            macd_signal: series.macd_signal[i],
            macd_hist: series.macd_hist[i],
            stoch_k: series.stoch_k[i],
            stoch_d: series.stoch_d[i],
        });
        i = i + 1;
    }
    r
}

impl ScanResult {
    /// What a scan sees of a symbol: for at least `MIN_SCAN_CANDLES`
    /// candles, the close and readings of the newest candle, and the MACD
    /// and its signal of the one before; nothing for fewer candles.
    pub fn from_latest(
        exchange: &str,
        symbol: &str,
        klines: &Vec<KlineData>,
        series: &IndicatorSeries,
    ) -> (r: Option<ScanResult>)
        requires
            series.covers(klines.len() as nat),
        ensures
            r is Some <==> klines.len() >= MIN_SCAN_CANDLES,
            r matches Some(s) ==> {
                let last = klines.len() - 1;
                let prev = klines.len() - 2;
                &&& s.exchange@ == exchange@
                &&& s.symbol@ == symbol@
                &&& s.price == klines[last].close
                &&& s.rsi == series.rsi[last]
                &&& s.stoch_k == series.stoch_k[last]
                &&& s.stoch_d == series.stoch_d[last]
                &&& s.macd == series.macd[last]
                &&& s.macd_signal == series.macd_signal[last]
                &&& s.sma == series.sma[last]
                &&& s.upper_band == series.upper_band[last]
                &&& s.lower_band == series.lower_band[last]
                &&& s.prev_macd == series.macd[prev]
                &&& s.prev_macd_signal == series.macd_signal[prev]
            },
    {
        if klines.len() < MIN_SCAN_CANDLES {
            return None;
        }
        let last = klines.len() - 1;
        let prev = last - 1;
        Some(ScanResult {
            exchange: String::from_str(exchange),
            symbol: String::from_str(symbol),
            price: klines[last].close,
            rsi: series.rsi[last],
            stoch_k: series.stoch_k[last],
            stoch_d: series.stoch_d[last],
            macd: series.macd[last],
            macd_signal: series.macd_signal[last],
            sma: series.sma[last],
            upper_band: series.upper_band[last],
            lower_band: series.lower_band[last],
            prev_macd: series.macd[prev],
            prev_macd_signal: series.macd_signal[prev],
        })
    }
}

/// The built-in scanner presets.
pub fn get_scanner_presets() -> (r: Vec<ScannerPreset>)
    ensures
        r.len() == 14,
        forall|i: int| 0 <= i < 14 ==> is_default_preset(#[trigger] r[i], i),
{
    get_default_presets()
}

/// The error of a scan with an unknown preset.
pub open spec fn unknown_preset_message(id: Seq<char>) -> Seq<char> {
    "Preset '"@ + id + "' not found"@
}

/// The place of the first preset with identifier `id`, or the error
/// "Preset '<id>' not found" when there is none.
pub fn find_preset(presets: &Vec<ScannerPreset>, id: &str) -> (r: Result<usize, String>)
    ensures
        r matches Ok(i) ==> i < presets.len() && presets[i as int].id@ == id@ && forall|j: int|
            0 <= j < i ==> #[trigger] presets[j].id@ != id@,
        r matches Err(e) ==> e@ == unknown_preset_message(id@) && forall|j: int|
            0 <= j < presets.len() ==> #[trigger] presets[j].id@ != id@,
{
    let mut i: usize = 0;
    while i < presets.len()
        invariant
            i <= presets.len(),
            forall|j: int| 0 <= j < i ==> #[trigger] presets[j].id@ != id@,
        decreases presets.len() - i,
    {
        if same_text(&presets[i].id, id) {
            return Ok(i);
        }
        i = i + 1;
    }
    Err(String::from_str("Preset '").concat(id).concat("' not found"))
}

/// A scan of an exchange's symbols with one preset. The application
/// fetches the candles of each symbol in turn (`next_symbol`), computes
/// their readings and hands them back (`record`); the scan keeps the
/// symbols whose readings meet every condition of the preset.
pub struct ScanSession {
    /// The preset's conditions.
    pub conditions: Vec<FilterCondition>,
    /// The symbols to look at, in order.
    pub symbols: Vec<String>,
    /// How many symbols have been looked at.
    pub done: usize,
    /// The readings that met the preset, in the order of their symbols.
    pub found: Vec<ScanResult>,
    /// What was seen of each symbol looked at so far, in order.
    pub seen: Ghost<Seq<Option<ScanResult>>>,
}

/// The readings among `seen` that meet every one of `conditions`, in order.
pub open spec fn kept(conditions: Seq<FilterCondition>, seen: Seq<Option<ScanResult>>) -> Seq<ScanResult>
    decreases seen.len(),
{
    if seen.len() == 0 {
        Seq::empty()
    } else {
        let earlier = kept(conditions, seen.drop_last());
        match seen.last() {
            Some(r) => if r.meets_all(conditions) {
                earlier.push(r)
            } else {
                earlier
            },
            None => earlier,
        }
    }
}

/// A scan returns only readings that meet the preset, never more of them
/// than it saw, and every reading it saw that meets the preset.
pub proof fn scan_keeps_exactly_the_matches(conditions: Seq<FilterCondition>, seen: Seq<Option<ScanResult>>)
    ensures
        kept(conditions, seen).len() <= seen.len(),
        forall|i: int|
            0 <= i < kept(conditions, seen).len() ==> (#[trigger] kept(conditions, seen)[i]).meets_all(
                conditions,
            ),
        forall|j: int|
            0 <= j < seen.len() && (#[trigger] seen[j] matches Some(r) && r.meets_all(conditions))
                ==> kept(conditions, seen).contains(seen[j]->0),
    decreases seen.len(),
{
    if seen.len() > 0 {
        let earlier = seen.drop_last();
        scan_keeps_exactly_the_matches(conditions, earlier);
        let k0 = kept(conditions, earlier);
        let k = kept(conditions, seen);
        assert forall|j: int|
            0 <= j < seen.len() && (#[trigger] seen[j] matches Some(r) && r.meets_all(conditions))
                implies k.contains(seen[j]->0) by {
            if j < seen.len() - 1 {
                assert(earlier[j] == seen[j]);
                let w = choose|w: int| 0 <= w < k0.len() && k0[w] == seen[j]->0;
                assert(k[w] == k0[w]);
            } else {
                assert(k[k.len() - 1] == seen[j]->0);
            }
        }
    }
}

impl ScanSession {
    /// The session is consistent: it has not looked past its symbols, it
    /// saw one thing of each symbol it looked at, and it kept exactly the
    /// readings among them that meet its conditions.
    pub open spec fn consistent(self) -> bool {
        &&& self.done <= self.symbols.len()
        &&& self.seen@.len() == self.done
        &&& self.found@ == kept(self.conditions@, self.seen@)
    }

    /// A scan of every one of `symbols`, in order, with `preset`, that has
    /// looked at none yet.
    pub fn new(preset: &ScannerPreset, symbols: Vec<String>) -> (s: ScanSession)
        ensures
            s.conditions@ == preset.conditions@,
            s.symbols@ == symbols@,
            s.done == 0,
            s.found@.len() == 0,
            s.seen@.len() == 0,
            s.consistent(),
    {
        let mut conditions: Vec<FilterCondition> = Vec::new();
        let mut i: usize = 0;
        while i < preset.conditions.len()
            invariant
                i <= preset.conditions.len(),
                conditions@ =~= preset.conditions@.take(i as int),
            decreases preset.conditions.len() - i,
        {
            conditions.push(preset.conditions[i]);
            i = i + 1;
        }
        assert(preset.conditions@.take(preset.conditions.len() as int) =~= preset.conditions@);
        ScanSession { conditions, symbols, done: 0, found: Vec::new(), seen: Ghost(Seq::empty()) }
    }

    /// The next symbol to look at, if any is left.
    pub fn next_symbol(&self) -> (r: Option<String>)
        ensures
            r is Some <==> self.done < self.symbols.len(),
            r matches Some(s) ==> s@ == self.symbols[self.done as int]@,
    {
        if self.done < self.symbols.len() {
            Some(self.symbols[self.done].clone())
        } else {
            None
        }
    }

    /// Records what was seen of the next symbol: its readings, or `None`
    /// when its candles could not be had or were too few. Readings that
    /// meet every condition are kept.
    pub fn record(&mut self, seen: Option<ScanResult>)
        requires
            old(self).consistent(),
            old(self).done < old(self).symbols.len(),
        ensures
            final(self).consistent(),
            final(self).done == old(self).done + 1,
            final(self).symbols == old(self).symbols,
            final(self).conditions == old(self).conditions,
            final(self).seen@ == old(self).seen@.push(seen),
            seen matches Some(s) ==> (s.meets_all(old(self).conditions@) ==> final(self).found@
                == old(self).found@.push(s)),
            seen matches Some(s) ==> (!s.meets_all(old(self).conditions@) ==> final(self).found@
                == old(self).found@),
            seen is None ==> final(self).found@ == old(self).found@,
    {
        let ghost before = self.seen@;
        proof {
            self.seen = Ghost(before.push(seen));
            assert(self.seen@.drop_last() =~= before);
        }
        match seen {
            Some(s) => {
                if s.meets_conditions(&self.conditions) {
                    self.found.push(s);
                }
            },
            None => {},
        }
        self.done = self.done + 1;
    }

    /// The readings kept, once every symbol has been looked at.
    pub fn results(self) -> (r: Vec<ScanResult>)
        ensures
            r@ == self.found@,
            self.consistent() ==> r@ == kept(self.conditions@, self.seen@),
    {
        self.found
    }
}

} // verus!
