//! The in-memory state shared by the application: the candle history of
//! each symbol and the current indicator settings.
use vstd::prelude::*;
use crate::models::KlineData;
use crate::num::Double;

verus! {

/// The number of candles kept per symbol: a tick beyond it pushes the
/// oldest candle out.
pub const HISTORY_LIMIT: usize = 2000;

/// A history after one tick, before it is cut to its limit: a tick at the
/// time of the last candle replaces it (the candle is still forming); any
/// other tick is appended.
pub open spec fn with_tick(history: Seq<KlineData>, tick: KlineData) -> Seq<KlineData> {
    if history.len() > 0 && history.last().time == tick.time {
        history.drop_last().push(tick)
    } else {
        history.push(tick)
    }
}

/// The newest `limit` entries of `s` (all of them if there are no more).
pub open spec fn newest(s: Seq<KlineData>, limit: nat) -> Seq<KlineData> {
    if s.len() > limit {
        s.skip(s.len() - limit)
    } else {
        s
    }
}

/// The history of a symbol after a tick.
pub open spec fn after_tick(history: Seq<KlineData>, tick: KlineData) -> Seq<KlineData> {
    newest(with_tick(history, tick), HISTORY_LIMIT as nat)
}

/// The history recorded for `symbol` in `m`, empty if there is none.
pub open spec fn history_in(m: Map<Seq<char>, Seq<KlineData>>, symbol: Seq<char>) -> Seq<KlineData> {
    if m.contains_key(symbol) {
        m[symbol]
    } else {
        Seq::empty()
    }
}

/// The candles recorded for one symbol, oldest first.
#[derive(Clone, Debug)]
pub struct SymbolHistory {
    pub symbol: String,
    pub klines: Vec<KlineData>,
}

/// The candle histories of all symbols, looked up by symbol name.
#[derive(Debug)]
pub struct KlineStore {
    entries: Vec<SymbolHistory>,
}

/// The map that a list of symbol histories stands for.
pub open spec fn entries_map(es: Seq<SymbolHistory>) -> Map<Seq<char>, Seq<KlineData>>
    decreases es.len(),
{
    if es.len() == 0 {
        Map::empty()
    } else {
        entries_map(es.drop_last()).insert(es.last().symbol@, es.last().klines@)
    }
}

/// No symbol occurs twice.
pub open spec fn distinct_symbols(es: Seq<SymbolHistory>) -> bool {
    forall|i: int, j: int|
        0 <= i < es.len() && 0 <= j < es.len() && i != j ==> #[trigger] es[i].symbol@
            != #[trigger] es[j].symbol@
}

proof fn lemma_entries_map_domain(es: Seq<SymbolHistory>, key: Seq<char>)
    ensures
        entries_map(es).contains_key(key) <==> exists|i: int|
            0 <= i < es.len() && #[trigger] es[i].symbol@ == key,
    decreases es.len(),
{
    if es.len() > 0 {
        let init = es.drop_last();
        lemma_entries_map_domain(init, key);
        if entries_map(es).contains_key(key) {
            if key != es.last().symbol@ {
                let i = choose|i: int| 0 <= i < init.len() && #[trigger] init[i].symbol@ == key;
                assert(es[i].symbol@ == key);
            } else {
                assert(es[es.len() - 1].symbol@ == key);
            }
        }
        if exists|i: int| 0 <= i < es.len() && #[trigger] es[i].symbol@ == key {
            let i = choose|i: int| 0 <= i < es.len() && #[trigger] es[i].symbol@ == key;
            if i < es.len() - 1 {
                assert(init[i].symbol@ == key);
            }
        }
    }
}

proof fn lemma_entries_map_at(es: Seq<SymbolHistory>, i: int)
    requires
        distinct_symbols(es),
        0 <= i < es.len(),
    ensures
        entries_map(es).contains_key(es[i].symbol@),
        entries_map(es)[es[i].symbol@] == es[i].klines@,
    decreases es.len(),
{
    let init = es.drop_last();
    if i < es.len() - 1 {
        assert(init[i] == es[i]);
        assert(distinct_symbols(init));
        lemma_entries_map_at(init, i);
        assert(es[i].symbol@ != es[es.len() - 1].symbol@);
    }
}

proof fn lemma_entries_map_update(es: Seq<SymbolHistory>, i: int, e: SymbolHistory)
    requires
        distinct_symbols(es),
        0 <= i < es.len(),
        e.symbol@ == es[i].symbol@,
    ensures
        entries_map(es.update(i, e)) == entries_map(es).insert(e.symbol@, e.klines@),
        distinct_symbols(es.update(i, e)),
    decreases es.len(),
{
    let es2 = es.update(i, e);
    let init = es.drop_last();
    assert(distinct_symbols(es2)) by {
        assert forall|a: int, b: int|
            0 <= a < es2.len() && 0 <= b < es2.len() && a != b implies #[trigger] es2[a].symbol@
            != #[trigger] es2[b].symbol@ by {
            assert(es2[a].symbol@ == es[a].symbol@);
            assert(es2[b].symbol@ == es[b].symbol@);
        }
    }
    if i == es.len() - 1 {
        assert(es2.drop_last() =~= init);
        assert(entries_map(es2) =~= entries_map(es).insert(e.symbol@, e.klines@));
    } else {
        assert(es2.drop_last() =~= init.update(i, e));
        assert(distinct_symbols(init));
        assert(init[i] == es[i]);
        lemma_entries_map_update(init, i, e);
        assert(es[i].symbol@ != es[es.len() - 1].symbol@);
        assert(entries_map(es2) =~= entries_map(es).insert(e.symbol@, e.klines@));
    }
}

impl KlineStore {
    #[verifier::type_invariant]
    spec fn well_formed(self) -> bool {
        distinct_symbols(self.entries@)
    }

    /// The histories, by symbol name.
    pub closed spec fn view(&self) -> Map<Seq<char>, Seq<KlineData>> {
        entries_map(self.entries@)
    }

    /// A store that holds no history.
    pub fn new() -> (s: KlineStore)
        ensures
            s@ == Map::<Seq<char>, Seq<KlineData>>::empty(),
    {
        KlineStore { entries: Vec::new() }
    }

    /// Where `symbol` stands in `entries`, if it does.
    fn position(entries: &Vec<SymbolHistory>, symbol: &String) -> (r: Option<usize>)
        ensures
            r matches Some(i) ==> i < entries.len() && entries@[i as int].symbol@ == symbol@,
            r is None ==> forall|i: int|
                0 <= i < entries.len() ==> #[trigger] entries@[i].symbol@ != symbol@,
    {
        let mut i: usize = 0;
        while i < entries.len()
            invariant
                i <= entries.len(),
                forall|j: int| 0 <= j < i ==> #[trigger] entries@[j].symbol@ != symbol@,
            decreases entries.len() - i,
        {
            if entries[i].symbol == *symbol {
                return Some(i);
            }
            i = i + 1;
        }
        None
    }

    /// The history of `symbol`, oldest candle first, if one is recorded.
    pub fn get(&self, symbol: &str) -> (r: Option<Vec<KlineData>>)
        ensures
            r is Some <==> self@.contains_key(symbol@),
            r matches Some(h) ==> h@ == self@[symbol@],
    {
        proof {
            use_type_invariant(self);
        }
        let key = String::from_str(symbol);
        match Self::position(&self.entries, &key) {
            Some(i) => {
                proof {
                    lemma_entries_map_at(self.entries@, i as int);
                }
                let h = self.entries[i].klines.clone();
                assert(h@ =~= self.entries@[i as int].klines@);
                Some(h)
            },
            None => {
                proof {
                    lemma_entries_map_domain(self.entries@, symbol@);
                }
                None
            },
        }
    }

    /// Records `klines` as the whole history of `symbol`, replacing what was
    /// there.
    pub fn insert(&mut self, symbol: &str, klines: Vec<KlineData>)
        ensures
            final(self)@ == old(self)@.insert(symbol@, klines@),
    {
        proof {
            use_type_invariant(&*self);
        }
        let key = String::from_str(symbol);
        let mut entries: Vec<SymbolHistory> = Vec::new();
        std::mem::swap(&mut entries, &mut self.entries);
        let ghost before = entries@;
        assert(before == old(self).entries@);
        match Self::position(&entries, &key) {
            Some(i) => {
                let e = SymbolHistory { symbol: key, klines };
                proof {
                    lemma_entries_map_update(before, i as int, e);
                }
                entries.set(i, e);
            },
            None => {
                let e = SymbolHistory { symbol: key, klines };
                entries.push(e);
                assert(entries@.drop_last() =~= before);
                assert(distinct_symbols(entries@)) by {
                    assert forall|a: int, b: int|
                        0 <= a < entries@.len() && 0 <= b < entries@.len() && a != b implies #[trigger] entries@[a].symbol@
                        != #[trigger] entries@[b].symbol@ by {
                        if a < before.len() {
                            assert(entries@[a] == before[a]);
                        }
                        if b < before.len() {
                            assert(entries@[b] == before[b]);
                        }
                    }
                }
            },
        }
        self.entries = entries;
    }

    /// Records one tick of `symbol` and returns the symbol's history after
    /// it: a tick at the time of the last candle replaces that candle, any
    /// other is appended; then only the newest `HISTORY_LIMIT` candles are
    /// kept. A symbol without history starts one.
    pub fn update(&mut self, symbol: &str, tick: KlineData) -> (h: Vec<KlineData>)
        ensures
            final(self)@ == old(self)@.insert(symbol@, after_tick(history_in(old(self)@, symbol@), tick)),
            h@ == after_tick(history_in(old(self)@, symbol@), tick),
    {
        proof {
            use_type_invariant(&*self);
        }
        let key = String::from_str(symbol);
        let mut entries: Vec<SymbolHistory> = Vec::new();
        std::mem::swap(&mut entries, &mut self.entries);
        let ghost before = entries@;
        assert(before == old(self).entries@);
        let h;
        match Self::position(&entries, &key) {
            Some(i) => {
                proof {
                    lemma_entries_map_at(before, i as int);
                }
                let mut klines = entries[i].klines.clone();
                assert(klines@ =~= before[i as int].klines@);
                apply_tick(&mut klines, tick);
                h = klines.clone();
                assert(h@ =~= klines@);
                let e = SymbolHistory { symbol: key, klines };
                proof {
                    lemma_entries_map_update(before, i as int, e);
                }
                entries.set(i, e);
            },
            None => {
                proof {
                    lemma_entries_map_domain(before, symbol@);
                }
                let mut klines: Vec<KlineData> = Vec::new();
                apply_tick(&mut klines, tick);
                h = klines.clone();
                assert(h@ =~= klines@);
                let e = SymbolHistory { symbol: key, klines };
                entries.push(e);
                assert(entries@.drop_last() =~= before);
                assert(distinct_symbols(entries@)) by {
                    assert forall|a: int, b: int|
                        0 <= a < entries@.len() && 0 <= b < entries@.len() && a != b implies #[trigger] entries@[a].symbol@
                        != #[trigger] entries@[b].symbol@ by {
                        if a < before.len() {
                            assert(entries@[a] == before[a]);
                        }
                        if b < before.len() {
                            assert(entries@[b] == before[b]);
                        }
                    }
                }
            },
        }
        self.entries = entries;
        h
    }
}

/// Applies one tick to a history, in place.
fn apply_tick(list: &mut Vec<KlineData>, tick: KlineData)
    ensures
        final(list)@ == after_tick(old(list)@, tick),
{
    let n = list.len();
    if n > 0 && list[n - 1].time == tick.time {
        list.set(n - 1, tick);
        assert(list@ =~= old(list)@.drop_last().push(tick));
    } else {
        list.push(tick);
    }
    let ghost stepped = list@;
    assert(stepped == with_tick(old(list)@, tick));
    let n = list.len();
    if n > HISTORY_LIMIT {
        let first = n - HISTORY_LIMIT;
        let mut kept: Vec<KlineData> = Vec::with_capacity(HISTORY_LIMIT);
        let mut i = first;
        while i < n
            invariant
                first <= i <= n,
                n == list.len(),
                list@ == stepped,
                kept@ =~= stepped.subrange(first as int, i as int),
            decreases n - i,
        {
            kept.push(list[i]);
            i = i + 1;
        }
        *list = kept;
        assert(list@ =~= stepped.skip(first as int));
    }
}

/// After any tick a history holds at most `HISTORY_LIMIT` candles, at
/// least one, and the tick itself as its newest candle.
pub proof fn tick_is_newest_and_history_bounded(history: Seq<KlineData>, tick: KlineData)
    ensures
        1 <= after_tick(history, tick).len() <= HISTORY_LIMIT,
        after_tick(history, tick).last() == tick,
{
}

/// A tick at the time of the newest candle replaces it and leaves the
/// length alone; a tick at another time adds one candle while the history
/// is below its limit.
pub proof fn tick_length(history: Seq<KlineData>, tick: KlineData)
    requires
        history.len() <= HISTORY_LIMIT,
    ensures
        history.len() > 0 && history.last().time == tick.time ==> after_tick(history, tick)
            == history.drop_last().push(tick),
        !(history.len() > 0 && history.last().time == tick.time) && history.len() < HISTORY_LIMIT
            ==> after_tick(history, tick) == history.push(tick),
{
}

/// At the limit, a tick at a new time pushes out exactly the oldest candle.
pub proof fn full_history_drops_oldest(history: Seq<KlineData>, tick: KlineData)
    requires
        history.len() == HISTORY_LIMIT,
        history.last().time != tick.time,
    ensures
        after_tick(history, tick) == history.skip(1).push(tick),
{
    assert(history.push(tick).skip(1) =~= history.skip(1).push(tick));
}

/// Of two ticks at the same time only the second counts: recording both
/// gives the history that recording the second alone gives.
pub proof fn same_time_tick_overrides(history: Seq<KlineData>, first: KlineData, second: KlineData)
    requires
        first.time == second.time,
    ensures
        after_tick(after_tick(history, first), second) == after_tick(history, second),
{
    let once = after_tick(history, first);
    assert(once.len() > 0 && once.last() == first);
    if history.len() > 0 && history.last().time == first.time {
        let base = history.drop_last();
        assert(with_tick(history, first) == base.push(first));
        assert(with_tick(history, second) == base.push(second));
        if base.len() + 1 > HISTORY_LIMIT {
            let k = base.len() + 1 - HISTORY_LIMIT;
            assert(once =~= base.skip(k).push(first));
            assert(once.drop_last() =~= base.skip(k));
            assert(after_tick(history, second) =~= base.skip(k).push(second));
        } else {
            assert(once.drop_last() =~= base);
        }
    } else {
        assert(with_tick(history, first) == history.push(first));
        assert(with_tick(history, second) == history.push(second));
        if history.len() + 1 > HISTORY_LIMIT {
            let k = history.len() + 1 - HISTORY_LIMIT;
            assert(once =~= history.skip(k).push(first));
            assert(once.drop_last() =~= history.skip(k));
            assert(after_tick(history, second) =~= history.skip(k).push(second));
        } else {
            assert(once.drop_last() =~= history);
        }
    }
}

/// Recording a tick of one symbol leaves the history of every other symbol
/// as it was.
pub proof fn tick_leaves_other_symbols(
    m: Map<Seq<char>, Seq<KlineData>>,
    symbol: Seq<char>,
    other: Seq<char>,
    tick: KlineData,
)
    requires
        symbol != other,
    ensures
        history_in(m.insert(symbol, after_tick(history_in(m, symbol), tick)), other) == history_in(
            m,
            other,
        ),
{
}

/// The indicator settings chosen by the user.
#[derive(Clone, Copy, Debug)]
pub struct Config {
    /// The period of the moving average and the Bollinger bands.
    pub period: usize,
    /// The width of the Bollinger bands, in standard deviations.
    pub multiplier: Double,
}

/// The state that the application shares between its tasks.
#[derive(Debug)]
pub struct AppState {
    /// The candle history of every symbol seen so far.
    pub klines: KlineStore,
    /// The current indicator settings.
    pub config: Config,
}

/// The bit pattern of the double 2.0.
pub const TWO_BITS: u64 = 0x4000_0000_0000_0000;

impl AppState {
    /// An empty state, with a period of 20 and a band width of 2.0.
    pub fn new() -> (s: AppState)
        ensures
            s.klines@ == Map::<Seq<char>, Seq<KlineData>>::empty(),
            s.config.period == 20,
            s.config.multiplier.bits == TWO_BITS,
    {
        AppState {
            klines: KlineStore::new(),
            config: Config { period: 20, multiplier: Double::from_bits(TWO_BITS) },
        }
    }

    /// Records the indicator settings of a chart request.
    pub fn set_config(&mut self, period: usize, multiplier: Double)
        ensures
            final(self).config.period == period,
            final(self).config.multiplier == multiplier,
            final(self).klines@ == old(self).klines@,
    {
        self.config = Config { period, multiplier };
    }

    /// Records a live tick of `symbol` and returns the symbol's history
    /// after it, over which the indicators of the tick are computed.
    pub fn update_history(&mut self, symbol: &str, tick: KlineData) -> (h: Vec<KlineData>)
        ensures
            final(self).klines@ == old(self).klines@.insert(
                symbol@,
                after_tick(history_in(old(self).klines@, symbol@), tick),
            ),
            h@ == after_tick(history_in(old(self).klines@, symbol@), tick),
            final(self).config == old(self).config,
    {
        self.klines.update(symbol, tick)
    }
}

} // verus!
