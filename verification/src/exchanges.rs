//! The exchanges the application reads from, and each one's rules: its
//! identifier, interval names, which listings it trades against USDT, how
//! its candle rows are laid out, and what its kline streams carry.
use vstd::prelude::*;
use crate::models::KlineData;
use crate::num::Double;
use crate::text::{
    ascii_lowercase, ascii_only, decimal_i64, has_prefix, has_suffix, lowercase, occurs_in,
    without, contains, ends_with, parse_i64, remove_all, same_text, starts_with, to_lowercase,
};

verus! {

/// The supported exchanges.
#[derive(Clone, Copy, PartialEq, Eq, Structural, Debug)]
pub enum ExchangeKind {
    Binance,
    Bybit,
    Bitget,
    Okx,
    KuCoin,
    Kraken,
    Gate,
    Mexc,
}

/// The exchange that a (lowercase) name selects; any name that is not one
/// of the others selects Binance.
pub open spec fn named(s: Seq<char>) -> ExchangeKind {
    if s == "bybit"@ {
        ExchangeKind::Bybit
    } else if s == "bitget"@ {
        ExchangeKind::Bitget
    } else if s == "okx"@ {
        ExchangeKind::Okx
    } else if s == "kucoin"@ {
        ExchangeKind::KuCoin
    } else if s == "kraken"@ {
        ExchangeKind::Kraken
    } else if s == "gate"@ {
        ExchangeKind::Gate
    } else if s == "mexc"@ {
        ExchangeKind::Mexc
    } else {
        ExchangeKind::Binance
    }
}

impl ExchangeKind {
    /// The exchange's identifier.
    pub open spec fn name(self) -> Seq<char> {
        match self {
            ExchangeKind::Binance => "binance"@,
            ExchangeKind::Bybit => "bybit"@,
            ExchangeKind::Bitget => "bitget"@,
            ExchangeKind::Okx => "okx"@,
            ExchangeKind::KuCoin => "kucoin"@,
            ExchangeKind::Kraken => "kraken"@,
            ExchangeKind::Gate => "gate"@,
            ExchangeKind::Mexc => "mexc"@,
        }
    }

    /// The exchange's identifier (e.g. "binance").
    pub fn id(&self) -> (r: &'static str)
        ensures
            r@ == self.name(),
    {
        match self {
            ExchangeKind::Binance => "binance",
            ExchangeKind::Bybit => "bybit",
            ExchangeKind::Bitget => "bitget",
            ExchangeKind::Okx => "okx",
            ExchangeKind::KuCoin => "kucoin",
            ExchangeKind::Kraken => "kraken",
            ExchangeKind::Gate => "gate",
            ExchangeKind::Mexc => "mexc",
        }
    }

    /// The exchange a user names, case aside; Binance when the name is none
    /// of the supported ones.
    pub fn from_name(name: &str) -> (k: ExchangeKind)
        ensures
            k == named(lowercase(name@)),
            ascii_only(name@) ==> k == named(ascii_lowercase(name@)),
    {
        let lower = to_lowercase(name);
        if same_text(&lower, "bybit") {
            ExchangeKind::Bybit
        } else if same_text(&lower, "bitget") {
            ExchangeKind::Bitget
        } else if same_text(&lower, "okx") {
            ExchangeKind::Okx
        } else if same_text(&lower, "kucoin") {
            ExchangeKind::KuCoin
        } else if same_text(&lower, "kraken") {
            ExchangeKind::Kraken
        } else if same_text(&lower, "gate") {
            ExchangeKind::Gate
        } else if same_text(&lower, "mexc") {
            ExchangeKind::Mexc
        } else {
            ExchangeKind::Binance
        }
    }

    /// Whether the exchange has a kline stream the application listens to.
    pub open spec fn streams(self) -> bool {
        self is Binance || self is Bybit || self is Bitget
    }

    /// Whether the exchange has a kline stream the application listens to.
    pub fn has_stream(&self) -> (r: bool)
        ensures
            r == self.streams(),
    {
        match self {
            ExchangeKind::Binance | ExchangeKind::Bybit | ExchangeKind::Bitget => true,
            _ => false,
        }
    }

    /// Where the exchange's public kline stream is.
    pub fn websocket_url(&self) -> (r: &'static str)
        requires
            self.streams(),
        ensures
            self is Binance ==> r@ == "wss://stream.binance.com:9443/stream"@,
            self is Bybit ==> r@ == "wss://stream.bybit.com/v5/public/spot"@,
            self is Bitget ==> r@ == "wss://ws.bitget.com/v2/ws/public"@,
    {
        match self {
            ExchangeKind::Binance => "wss://stream.binance.com:9443/stream",
            ExchangeKind::Bybit => "wss://stream.bybit.com/v5/public/spot",
            _ => "wss://ws.bitget.com/v2/ws/public",
        }
    }

    /// The one-minute interval of the chart, as the exchange names it.
    pub open spec fn minute_name(self) -> Seq<char> {
        if self is Bybit || self is Kraken {
            "1"@
        } else {
            "1m"@
        }
    }

    /// The interval a chart asks for: one minute, in the exchange's own
    /// naming ("1" on Bybit and Kraken, "1m" elsewhere).
    pub fn chart_interval(&self) -> (r: &'static str)
        ensures
            r@ == self.minute_name(),
    {
        match self {
            ExchangeKind::Bybit | ExchangeKind::Kraken => "1",
            _ => "1m",
        }
    }

    /// How the exchange names a scanner interval: Bybit and Kraken count
    /// minutes ("60", "240") and name a day "D" and "1440"; every other
    /// interval passes unchanged.
    pub open spec fn scan_name(self, interval: Seq<char>) -> Seq<char> {
        if self is Bybit && interval == "1h"@ {
            "60"@
        } else if self is Bybit && interval == "4h"@ {
            "240"@
        } else if self is Bybit && interval == "1d"@ {
            "D"@
        } else if self is Kraken && interval == "1h"@ {
            "60"@
        } else if self is Kraken && interval == "4h"@ {
            "240"@
        } else if self is Kraken && interval == "1d"@ {
            "1440"@
        } else {
            interval
        }
    }

    /// The scanner's interval in the exchange's naming.
    pub fn scan_interval(&self, interval: &str) -> (r: String)
        ensures
            r@ == self.scan_name(interval@),
    {
        let minutes = match self {
            ExchangeKind::Bybit | ExchangeKind::Kraken => true,
            _ => false,
        };
        let is_bybit = match self {
            ExchangeKind::Bybit => true,
            _ => false,
        };
        if minutes {
            let s = String::from_str(interval);
            if same_text(&s, "1h") {
                return String::from_str("60");
            } else if same_text(&s, "4h") {
                return String::from_str("240");
            } else if same_text(&s, "1d") {
                if is_bybit {
                    return String::from_str("D");
                } else {
                    return String::from_str("1440");
                }
            }
        }
        String::from_str(interval)
    }

    /// The interval parameter of a candle request: Bitget and KuCoin call
    /// one minute "1min" and Kraken "1"; everything else passes unchanged.
    pub open spec fn request_name(self, interval: Seq<char>) -> Seq<char> {
        if (self is Bitget || self is KuCoin) && interval == "1m"@ {
            "1min"@
        } else if self is Kraken && interval == "1m"@ {
            "1"@
        } else {
            interval
        }
    }

    /// The interval parameter of a candle request.
    pub fn request_interval(&self, interval: &str) -> (r: String)
        ensures
            r@ == self.request_name(interval@),
    {
        let s = String::from_str(interval);
        if same_text(&s, "1m") {
            match self {
                ExchangeKind::Bitget | ExchangeKind::KuCoin => {
                    return String::from_str("1min");
                },
                ExchangeKind::Kraken => {
                    return String::from_str("1");
                },
                _ => {},
            }
        }
        s
    }
}

/// Every exchange's identifier selects it, whatever the case of its
/// letters: the identifiers are plain ASCII, and lowercasing them changes
/// nothing.
pub proof fn identifier_selects_exchange(k: ExchangeKind)
    ensures
        ascii_only(k.name()),
        named(ascii_lowercase(k.name())) == k,
{
    reveal_strlit("binance");
    reveal_strlit("bybit");
    reveal_strlit("bitget");
    reveal_strlit("okx");
    reveal_strlit("kucoin");
    reveal_strlit("kraken");
    reveal_strlit("gate");
    reveal_strlit("mexc");
    assert(ascii_lowercase(k.name()) =~= k.name());
    let n = k.name();
    if !(k is Bybit) {
        assert(n != "bybit"@) by {
            if n.len() == 5 {
                assert(n[0] != "bybit"@[0] || n[1] != "bybit"@[1]);
            }
        }
    }
    if !(k is Bitget) {
        assert(n != "bitget"@) by {
            if n.len() == 6 {
                assert(n[0] != "bitget"@[0]);
            }
        }
    }
    if !(k is Okx) {
        assert(n != "okx"@);
    }
    if !(k is KuCoin) {
        assert(n != "kucoin"@) by {
            if n.len() == 6 {
                assert(n[1] != "kucoin"@[1]);
            }
        }
    }
    if !(k is Kraken) {
        assert(n != "kraken"@) by {
            if n.len() == 6 {
                assert(n[1] != "kraken"@[1]);
            }
        }
    }
    if !(k is Gate) {
        assert(n != "gate"@) by {
            if n.len() == 4 {
                assert(n[0] != "gate"@[0]);
            }
        }
    }
    if !(k is Mexc) {
        assert(n != "mexc"@) by {
            if n.len() == 4 {
                assert(n[0] != "mexc"@[0]);
            }
        }
    }
}

} // verus!

verus! {

/// One entry of an exchange's instrument list, with the fields the symbol
/// filter reads. Which JSON field fills which slot depends on the exchange
/// (`ExchangeKind::listing_fields`): Binance and MEXC read `symbol`,
/// `quoteAsset`, `status`; Bybit and Bitget `symbol`, `quoteCoin`, `status`;
/// OKX `instId`, `quoteCcy`, `state`; Gate `id`, `quote`, `trade_status`;
/// KuCoin `symbol`, `quoteCurrency` and the flag `enableTrading`; Kraken
/// `altname` and `wsname`, its pair name. A slot is `None` where the field
/// is missing or not of its type.
#[derive(Clone, Debug)]
pub struct Listing {
    pub symbol: Option<String>,
    pub quote: Option<String>,
    pub status: Option<String>,
    pub trading: Option<bool>,
    pub pair: Option<String>,
}

/// A text slot that is present and equal to `lit`.
pub open spec fn text_is(t: Option<String>, lit: Seq<char>) -> bool {
    t matches Some(s) && s@ == lit
}

/// The symbol a listing contributes: its symbol, or empty text if it has
/// none.
pub open spec fn listed_symbol(l: Listing) -> Seq<char> {
    match l.symbol {
        Some(s) => s@,
        None => Seq::empty(),
    }
}

impl ExchangeKind {
    /// Whether the exchange's listing is a pair against USDT that trades.
    pub open spec fn accepts(self, l: Listing) -> bool {
        match self {
            ExchangeKind::Binance => text_is(l.quote, "USDT"@) && text_is(l.status, "TRADING"@),
            ExchangeKind::Bybit => text_is(l.quote, "USDT"@) && text_is(l.status, "Trading"@),
            ExchangeKind::Okx => text_is(l.quote, "USDT"@) && text_is(l.status, "live"@),
            ExchangeKind::Bitget => text_is(l.quote, "USDT"@) && text_is(l.status, "online"@),
            ExchangeKind::Gate => text_is(l.quote, "USDT"@) && text_is(l.status, "tradable"@),
            ExchangeKind::KuCoin => text_is(l.quote, "USDT"@) && l.trading == Some(true),
            ExchangeKind::Mexc => text_is(l.quote, "USDT"@) && (text_is(l.status, "ENABLED"@)
                || text_is(l.status, "TRADING"@) || text_is(l.status, "1"@)),
            ExchangeKind::Kraken => (l.pair matches Some(p) && has_suffix(p@, "/USDT"@))
                && l.symbol is Some,
        }
    }

    /// The symbols of the accepted listings, in their order.
    pub open spec fn usdt_listed(self, ls: Seq<Listing>) -> Seq<Seq<char>>
        decreases ls.len(),
    {
        if ls.len() == 0 {
            Seq::empty()
        } else if self.accepts(ls.last()) {
            self.usdt_listed(ls.drop_last()).push(listed_symbol(ls.last()))
        } else {
            self.usdt_listed(ls.drop_last())
        }
    }

    /// Whether the exchange's listing is a pair against USDT that trades.
    pub fn accepts_listing(&self, l: &Listing) -> (r: bool)
        ensures
            r == self.accepts(*l),
    {
        let usdt = slot_is(&l.quote, "USDT");
        match self {
            ExchangeKind::Binance => usdt && slot_is(&l.status, "TRADING"),
            ExchangeKind::Bybit => usdt && slot_is(&l.status, "Trading"),
            ExchangeKind::Okx => usdt && slot_is(&l.status, "live"),
            ExchangeKind::Bitget => usdt && slot_is(&l.status, "online"),
            ExchangeKind::Gate => usdt && slot_is(&l.status, "tradable"),
            ExchangeKind::KuCoin => usdt && match l.trading {
                Some(t) => t,
                None => false,
            },
            ExchangeKind::Mexc => usdt && (slot_is(&l.status, "ENABLED") || slot_is(
                &l.status,
                "TRADING",
            ) || slot_is(&l.status, "1")),
            ExchangeKind::Kraken => {
                let usdt_pair = match &l.pair {
                    Some(p) => ends_with(p.as_str(), "/USDT"),
                    None => false,
                };
                usdt_pair && l.symbol.is_some()
            },
        }
    }

    /// The tradable USDT symbols among an exchange's listings, in order.
    /// A listing without a symbol contributes empty text (Kraken skips it).
    pub fn usdt_symbols(&self, listings: &Vec<Listing>) -> (r: Vec<String>)
        ensures
            r@.map_values(|s: String| s@) == self.usdt_listed(listings@),
    {
        let mut r: Vec<String> = Vec::new();
        let mut i: usize = 0;
        while i < listings.len()
            invariant
                i <= listings.len(),
                r@.map_values(|s: String| s@) == self.usdt_listed(listings@.take(i as int)),
            decreases listings.len() - i,
        {
            let ghost before = r@;
            assert(listings@.take(i + 1).drop_last() =~= listings@.take(i as int));
            assert(listings@.take(i + 1).last() == listings@[i as int]);
            if self.accepts_listing(&listings[i]) {
                let s = match &listings[i].symbol {
                    Some(s) => s.clone(),
                    None => String::new(),
                };
                r.push(s);
                assert(r@.map_values(|s: String| s@) =~= before.map_values(|s: String| s@).push(
                    listed_symbol(listings@[i as int]),
                ));
            }
            i = i + 1;
        }
        assert(listings@.take(listings.len() as int) =~= listings@);
        r
    }
}

fn slot_is(t: &Option<String>, lit: &str) -> (r: bool)
    ensures
        r == text_is(*t, lit@),
{
    match t {
        Some(s) => same_text(s, lit),
        None => false,
    }
}

} // verus!

verus! {

/// One JSON value of a candle row, with the readings the decoders use.
#[derive(Clone, Debug)]
pub enum Cell {
    /// A number: `int` is its value if it is an integer within `i64`;
    /// `value` is the nearest double; `whole` is that double cut to an
    /// `i64` (saturating, NaN to 0).
    Number { int: Option<i64>, value: Double, whole: i64 },
    /// A string, with the double it spells, if it spells one.
    Text { text: String, value: Option<Double> },
    /// Anything else: null, a boolean, an array or an object.
    Other,
}

/// An integer cell's value, 0 for anything else.
pub open spec fn int_or_zero(c: Cell) -> i64 {
    match c {
        Cell::Number { int: Some(n), .. } => n,
        _ => 0,
    }
}

/// The integer a text cell spells, 0 if it spells none or is no text.
pub open spec fn text_int_or_zero(c: Cell) -> i64 {
    match c {
        Cell::Text { text, .. } => match decimal_i64(text@) {
            Some(n) => n,
            None => 0,
        },
        _ => 0,
    }
}

/// The double a text cell spells, 0.0 if it spells none or is no text.
pub open spec fn text_value_or_zero(c: Cell) -> Double {
    match c {
        Cell::Text { value: Some(v), .. } => v,
        _ => Double { bits: 0 },
    }
}

/// The double of a text or number cell, 0.0 for anything else.
pub open spec fn any_value_or_zero(c: Cell) -> Double {
    match c {
        Cell::Text { value: Some(v), .. } => v,
        Cell::Number { value, .. } => value,
        _ => Double { bits: 0 },
    }
}

/// A number cell as a whole number: its integer value, else its double cut
/// to an integer.
pub open spec fn number_whole(c: Cell) -> int {
    match c {
        Cell::Number { int: Some(n), .. } => n as int,
        Cell::Number { whole, .. } => whole as int,
        _ => 0,
    }
}

/// How an exchange lays out a candle row.
#[derive(Clone, Copy, PartialEq, Eq, Structural, Debug)]
pub enum RowLayout {
    /// `[time, open, high, low, close, volume, ..]`, the time a number of
    /// milliseconds, the prices text (Binance, MEXC).
    NumberTime,
    /// `[time, open, high, low, close, volume, ..]`, all text, the time in
    /// milliseconds (Bybit, OKX, Bitget).
    TextTime,
    /// `[time, volume, close, high, low, open]`, all text, the time in
    /// seconds (Gate).
    GateColumns,
    /// `[time, open, close, high, low, volume, ..]`, all text, the time in
    /// seconds (KuCoin).
    KuCoinColumns,
    /// `[time, open, high, low, close, vwap, volume, count]`, the time a
    /// number of seconds, the prices text or numbers (Kraken).
    KrakenColumns,
}

impl RowLayout {
    /// How many cells a row needs to be read; shorter rows are skipped.
    pub open spec fn width(self) -> nat {
        if self is KrakenColumns {
            7
        } else {
            6
        }
    }

    /// Whether reading `row` stays within `i64` (the times in seconds are
    /// multiplied by 1000) and finds a number where Kraken needs one.
    pub open spec fn readable(self, row: Seq<Cell>) -> bool {
        row.len() < self.width() || match self {
            RowLayout::GateColumns | RowLayout::KuCoinColumns => i64::MIN <= text_int_or_zero(row[0])
                * 1000 <= i64::MAX,
            RowLayout::KrakenColumns => row[0] is Number && i64::MIN <= number_whole(row[0]) * 1000
                <= i64::MAX,
            _ => true,
        }
    }

    /// The candle a row of at least `width` cells stands for.
    pub open spec fn kline(self, row: Seq<Cell>) -> KlineData {
        match self {
            RowLayout::NumberTime => KlineData {
                time: int_or_zero(row[0]),
                open: text_value_or_zero(row[1]),
                high: text_value_or_zero(row[2]),
                low: text_value_or_zero(row[3]),
                close: text_value_or_zero(row[4]),
                volume: text_value_or_zero(row[5]),
            },
            RowLayout::TextTime => KlineData {
                time: text_int_or_zero(row[0]),
                open: text_value_or_zero(row[1]),
                high: text_value_or_zero(row[2]),
                low: text_value_or_zero(row[3]),
                close: text_value_or_zero(row[4]),
                volume: text_value_or_zero(row[5]),
            },
            RowLayout::GateColumns => KlineData {
                time: (text_int_or_zero(row[0]) * 1000) as i64,
                open: text_value_or_zero(row[5]),
                high: text_value_or_zero(row[3]),
                low: text_value_or_zero(row[4]),
                close: text_value_or_zero(row[2]),
                volume: text_value_or_zero(row[1]),
            },
            RowLayout::KuCoinColumns => KlineData {
                time: (text_int_or_zero(row[0]) * 1000) as i64,
                open: text_value_or_zero(row[1]),
                high: text_value_or_zero(row[3]),
                low: text_value_or_zero(row[4]),
                close: text_value_or_zero(row[2]),
                volume: text_value_or_zero(row[5]),
            },
            RowLayout::KrakenColumns => KlineData {
                time: (number_whole(row[0]) * 1000) as i64,
                open: any_value_or_zero(row[1]),
                high: any_value_or_zero(row[2]),
                low: any_value_or_zero(row[3]),
                close: any_value_or_zero(row[4]),
                volume: any_value_or_zero(row[6]),
            },
        }
    }

    /// The candles of the rows that are wide enough, in row order.
    pub open spec fn klines(self, rows: Seq<Vec<Cell>>) -> Seq<KlineData>
        decreases rows.len(),
    {
        if rows.len() == 0 {
            Seq::empty()
        } else if rows.last()@.len() >= self.width() {
            self.klines(rows.drop_last()).push(self.kline(rows.last()@))
        } else {
            self.klines(rows.drop_last())
        }
    }

    /// Reads one row; `None` if it is too short.
    pub fn read_row(&self, row: &Vec<Cell>) -> (r: Option<KlineData>)
        requires
            self.readable(row@),
        ensures
            row@.len() < self.width() ==> r is None,
            row@.len() >= self.width() ==> r == Some(self.kline(row@)),
    {
        match self {
            RowLayout::KrakenColumns => {
                if row.len() < 7 {
                    return None;
                }
                let secs: i64 = match &row[0] {
                    Cell::Number { int: Some(n), .. } => *n,
                    Cell::Number { whole, .. } => *whole,
                    _ => 0,
                };
                Some(KlineData {
                    time: secs * 1000,
                    open: any_value(&row[1]),
                    high: any_value(&row[2]),
                    low: any_value(&row[3]),
                    close: any_value(&row[4]),
                    volume: any_value(&row[6]),
                })
            },
            _ => {
                if row.len() < 6 {
                    return None;
                }
                match self {
                    RowLayout::NumberTime => Some(KlineData {
                        time: int_value(&row[0]),
                        open: text_value(&row[1]),
                        high: text_value(&row[2]),
                        low: text_value(&row[3]),
                        close: text_value(&row[4]),
                        volume: text_value(&row[5]),
                    }),
                    RowLayout::TextTime => Some(KlineData {
                        time: text_int(&row[0]),
                        open: text_value(&row[1]),
                        high: text_value(&row[2]),
                        low: text_value(&row[3]),
                        close: text_value(&row[4]),
                        volume: text_value(&row[5]),
                    }),
                    RowLayout::GateColumns => Some(KlineData {
                        time: text_int(&row[0]) * 1000,
                        open: text_value(&row[5]),
                        high: text_value(&row[3]),
                        low: text_value(&row[4]),
                        close: text_value(&row[2]),
                        volume: text_value(&row[1]),
                    }),
                    _ => Some(KlineData {
                        time: text_int(&row[0]) * 1000,
                        open: text_value(&row[1]),
                        high: text_value(&row[3]),
                        low: text_value(&row[4]),
                        close: text_value(&row[2]),
                        volume: text_value(&row[5]),
                    }),
                }
            },
        }
    }
}

/// Which column of an exchange's candle row each field of a candle comes
/// from. Binance and MEXC: `[time (a number of milliseconds), open, high,
/// low, close, volume]`; Bybit, OKX and Bitget: the same columns with the
/// time as text; Gate: `[time (seconds), volume, close, high, low, open]`;
/// KuCoin: `[time (seconds), open, close, high, low, volume]`; Kraken:
/// `[time (seconds), open, high, low, close, vwap, volume]`. Times in
/// seconds become milliseconds.
pub proof fn candle_columns(kind: ExchangeKind, row: Seq<Cell>)
    requires
        row.len() >= kind.layout().width(),
        kind.layout().readable(row),
    ensures
        (kind is Binance || kind is Mexc) ==> kind.layout().kline(row).time == int_or_zero(row[0]),
        (kind is Binance || kind is Mexc) ==> kind.layout().kline(row).open == text_value_or_zero(row[1]),
        (kind is Binance || kind is Mexc) ==> kind.layout().kline(row).high == text_value_or_zero(row[2]),
        (kind is Binance || kind is Mexc) ==> kind.layout().kline(row).low == text_value_or_zero(row[3]),
        (kind is Binance || kind is Mexc) ==> kind.layout().kline(row).close == text_value_or_zero(row[4]),
        (kind is Binance || kind is Mexc) ==> kind.layout().kline(row).volume == text_value_or_zero(row[5]),
        (kind is Bybit || kind is Okx || kind is Bitget) ==> kind.layout().kline(row).time
            == text_int_or_zero(row[0]),
        (kind is Bybit || kind is Okx || kind is Bitget) ==> kind.layout().kline(row).open == text_value_or_zero(row[1]),
        (kind is Bybit || kind is Okx || kind is Bitget) ==> kind.layout().kline(row).high == text_value_or_zero(row[2]),
        (kind is Bybit || kind is Okx || kind is Bitget) ==> kind.layout().kline(row).low == text_value_or_zero(row[3]),
        (kind is Bybit || kind is Okx || kind is Bitget) ==> kind.layout().kline(row).close == text_value_or_zero(row[4]),
        (kind is Bybit || kind is Okx || kind is Bitget) ==> kind.layout().kline(row).volume == text_value_or_zero(row[5]),
        kind is Gate ==> kind.layout().kline(row).time == text_int_or_zero(row[0]) * 1000,
        kind is Gate ==> kind.layout().kline(row).open == text_value_or_zero(row[5]),
        kind is Gate ==> kind.layout().kline(row).high == text_value_or_zero(row[3]),
        kind is Gate ==> kind.layout().kline(row).low == text_value_or_zero(row[4]),
        kind is Gate ==> kind.layout().kline(row).close == text_value_or_zero(row[2]),
        kind is Gate ==> kind.layout().kline(row).volume == text_value_or_zero(row[1]),
        kind is KuCoin ==> kind.layout().kline(row).time == text_int_or_zero(row[0]) * 1000,
        kind is KuCoin ==> kind.layout().kline(row).open == text_value_or_zero(row[1]),
        kind is KuCoin ==> kind.layout().kline(row).high == text_value_or_zero(row[3]),
        kind is KuCoin ==> kind.layout().kline(row).low == text_value_or_zero(row[4]),
        kind is KuCoin ==> kind.layout().kline(row).close == text_value_or_zero(row[2]),
        kind is KuCoin ==> kind.layout().kline(row).volume == text_value_or_zero(row[5]),
        kind is Kraken ==> kind.layout().kline(row).time == number_whole(row[0]) * 1000,
        kind is Kraken ==> kind.layout().kline(row).open == any_value_or_zero(row[1]),
        kind is Kraken ==> kind.layout().kline(row).high == any_value_or_zero(row[2]),
        kind is Kraken ==> kind.layout().kline(row).low == any_value_or_zero(row[3]),
        kind is Kraken ==> kind.layout().kline(row).close == any_value_or_zero(row[4]),
        kind is Kraken ==> kind.layout().kline(row).volume == any_value_or_zero(row[6]),
{
}

fn int_value(c: &Cell) -> (r: i64)
    ensures
        r == int_or_zero(*c),
{
    match c {
        Cell::Number { int: Some(n), .. } => *n,
        _ => 0,
    }
}

fn text_int(c: &Cell) -> (r: i64)
    ensures
        r == text_int_or_zero(*c),
{
    match c {
        Cell::Text { text, .. } => match parse_i64(text.as_str()) {
            Some(n) => n,
            None => 0,
        },
        _ => 0,
    }
}

fn text_value(c: &Cell) -> (r: Double)
    ensures
        r == text_value_or_zero(*c),
{
    match c {
        Cell::Text { value: Some(v), .. } => *v,
        _ => Double::zero(),
    }
}

fn any_value(c: &Cell) -> (r: Double)
    ensures
        r == any_value_or_zero(*c),
{
    match c {
        Cell::Text { value: Some(v), .. } => *v,
        Cell::Number { value, .. } => *value,
        _ => Double::zero(),
    }
}

} // verus!

verus! {

impl ExchangeKind {
    /// The layout of the exchange's candle rows.
    pub open spec fn layout(self) -> RowLayout {
        match self {
            ExchangeKind::Binance | ExchangeKind::Mexc => RowLayout::NumberTime,
            ExchangeKind::Bybit | ExchangeKind::Okx | ExchangeKind::Bitget => RowLayout::TextTime,
            ExchangeKind::Gate => RowLayout::GateColumns,
            ExchangeKind::KuCoin => RowLayout::KuCoinColumns,
            ExchangeKind::Kraken => RowLayout::KrakenColumns,
        }
    }

    /// The layout of the exchange's candle rows.
    pub fn row_layout(&self) -> (r: RowLayout)
        ensures
            r == self.layout(),
    {
        match self {
            ExchangeKind::Binance | ExchangeKind::Mexc => RowLayout::NumberTime,
            ExchangeKind::Bybit | ExchangeKind::Okx | ExchangeKind::Bitget => RowLayout::TextTime,
            ExchangeKind::Gate => RowLayout::GateColumns,
            ExchangeKind::KuCoin => RowLayout::KuCoinColumns,
            ExchangeKind::Kraken => RowLayout::KrakenColumns,
        }
    }

    /// Whether the exchange sends its candles newest first.
    pub open spec fn newest_first(self) -> bool {
        self is Bybit || self is Okx || self is Bitget || self is KuCoin
    }

    /// The candles that the exchange's rows stand for, oldest first.
    pub open spec fn candles(self, rows: Seq<Vec<Cell>>) -> Seq<KlineData> {
        if self.newest_first() {
            self.layout().klines(rows).reverse()
        } else {
            self.layout().klines(rows)
        }
    }

    /// Candles come out oldest first: Bybit, OKX, Bitget and KuCoin send
    /// their rows newest first, so their candles are the rows' candles in
    /// reverse; Binance, MEXC, Gate and Kraken send them oldest first, in the
    /// order kept.
    pub proof fn candles_oldest_first(self, rows: Seq<Vec<Cell>>)
        ensures
            (self is Bybit || self is Okx || self is Bitget || self is KuCoin) ==> self.candles(rows)
                == self.layout().klines(rows).reverse(),
            (self is Binance || self is Mexc || self is Gate || self is Kraken) ==> self.candles(rows)
                == self.layout().klines(rows),
    {
    }

    /// Whether every row can be read (see `RowLayout::readable`).
    pub open spec fn rows_readable(self, rows: Seq<Vec<Cell>>) -> bool {
        forall|i: int| 0 <= i < rows.len() ==> self.layout().readable(#[trigger] rows[i]@)
    }

    /// Whether every row can be read: reading a row whose time in seconds
    /// does not fit once multiplied by 1000, or a Kraken row whose time is
    /// not a number, is an error of the data.
    pub fn can_read(&self, rows: &Vec<Vec<Cell>>) -> (r: bool)
        ensures
            r == self.rows_readable(rows@),
    {
        let layout = self.row_layout();
        let mut i: usize = 0;
        while i < rows.len()
            invariant
                layout == self.layout(),
                i <= rows.len(),
                forall|j: int| 0 <= j < i ==> self.layout().readable(#[trigger] rows@[j]@),
            decreases rows.len() - i,
        {
            if !row_readable(layout, &rows[i]) {
                return false;
            }
            i = i + 1;
        }
        true
    }

    /// The candles of a response's rows, oldest first: rows too short are
    /// skipped, and the rows of exchanges that answer newest first are
    /// turned around.
    pub fn read_candles(&self, rows: &Vec<Vec<Cell>>) -> (r: Vec<KlineData>)
        requires
            self.rows_readable(rows@),
        ensures
            r@ == self.candles(rows@),
    {
        let layout = self.row_layout();
        let mut klines: Vec<KlineData> = Vec::new();
        let mut i: usize = 0;
        while i < rows.len()
            invariant
                layout == self.layout(),
                self.rows_readable(rows@),
                i <= rows.len(),
                klines@ == layout.klines(rows@.take(i as int)),
            decreases rows.len() - i,
        {
            assert(rows@.take(i + 1).drop_last() =~= rows@.take(i as int));
            assert(rows@.take(i + 1).last() == rows@[i as int]);
            assert(layout.readable(rows@[i as int]@));
            match layout.read_row(&rows[i]) {
                Some(k) => {
                    klines.push(k);
                },
                None => {},
            }
            i = i + 1;
        }
        assert(rows@.take(rows.len() as int) =~= rows@);
        let newest_first = match self {
            ExchangeKind::Bybit | ExchangeKind::Okx | ExchangeKind::Bitget | ExchangeKind::KuCoin => true,
            _ => false,
        };
        if newest_first {
            reversed(&klines)
        } else {
            klines
        }
    }
}

fn row_readable(layout: RowLayout, row: &Vec<Cell>) -> (r: bool)
    ensures
        r == layout.readable(row@),
{
    let wide = match layout {
        RowLayout::KrakenColumns => row.len() >= 7,
        _ => row.len() >= 6,
    };
    if !wide {
        return true;
    }
    match layout {
        RowLayout::GateColumns | RowLayout::KuCoinColumns => {
            let t = text_int(&row[0]);
            t.checked_mul(1000).is_some()
        },
        RowLayout::KrakenColumns => match &row[0] {
            Cell::Number { int: Some(n), .. } => n.checked_mul(1000).is_some(),
            Cell::Number { whole, .. } => whole.checked_mul(1000).is_some(),
            _ => false,
        },
        _ => true,
    }
}

/// The candles in the opposite order.
fn reversed(v: &Vec<KlineData>) -> (r: Vec<KlineData>)
    ensures
        r@ == v@.reverse(),
{
    let n = v.len();
    let mut r: Vec<KlineData> = Vec::new();
    let mut j: usize = 0;
    while j < n
        invariant
            n == v.len(),
            j <= n,
            r@ =~= Seq::new(j as nat, |i: int| v@[n - 1 - i]),
        decreases n - j,
    {
        r.push(v[n - 1 - j]);
        j = j + 1;
    }
    if n == 0 {
        assert(r@ =~= v@.reverse());
    }
    r
}

} // verus!

verus! {

/// Whether a Binance stream message carries a kline event: only those hold
/// a key named `k`; the others (subscription answers and the like) are
/// passed over.
pub fn mentions_kline(msg: &str) -> (r: bool)
    ensures
        r == occurs_in(msg@, "\"k\""@),
{
    contains(msg, "\"k\"")
}

/// Whether a Bitget stream message is its keep-alive answer "pong".
pub fn is_pong(msg: &str) -> (r: bool)
    ensures
        r == (msg@ == "pong"@),
{
    same_text(&String::from_str(msg), "pong")
}

/// The symbol of a Bybit kline topic ("kline.1.BTCUSDT" is BTCUSDT's):
/// the topic with every "kline.1." taken out, if it starts with one.
pub open spec fn topic_symbol(topic: Seq<char>) -> Option<Seq<char>> {
    if has_prefix(topic, "kline.1."@) {
        Some(without(topic, "kline.1."@))
    } else {
        None
    }
}

/// The update a Bybit stream message carries. `topic` is the message's
/// topic, if it has a text one; `first` the first entry of its data list,
/// if there is one, as the cells of its fields `start`, `open`, `high`,
/// `low`, `close` and `volume`. A message whose topic is not a one-minute
/// kline topic, or that has no data, carries none.
pub fn bybit_stream_update(topic: Option<String>, first: Option<Vec<Cell>>) -> (r: Option<(String, KlineData)>)
    requires
        first matches Some(row) ==> row@.len() >= 6,
    ensures
        r is Some <==> (topic matches Some(t) && topic_symbol(t@) is Some && first is Some),
        r matches Some(u) ==> topic matches Some(t) && first matches Some(row) && Some(u.0@)
            == topic_symbol(t@) && u.1 == RowLayout::NumberTime.kline(row@),
        r matches Some(u) ==> first matches Some(row) && u.1.time == int_or_zero(row@[0]) && u.1.open
            == text_value_or_zero(row@[1]) && u.1.high == text_value_or_zero(row@[2]) && u.1.low
            == text_value_or_zero(row@[3]) && u.1.close == text_value_or_zero(row@[4]) && u.1.volume
            == text_value_or_zero(row@[5]),
{
    match topic {
        Some(t) => {
            if !starts_with(t.as_str(), "kline.1.") {
                return None;
            }
            match first {
                Some(row) => {
                    let symbol = remove_all(t.as_str(), "kline.1.");
                    let layout = RowLayout::NumberTime;
                    match layout.read_row(&row) {
                        Some(k) => Some((symbol, k)),
                        None => None,
                    }
                },
                None => None,
            }
        },
        None => None,
    }
}

/// The update a Bitget stream message carries: `symbol` is the `instId`
/// of its `arg` object, `row` the first entry of its data list if that is
/// a list. It carries one when both are there and the row has six cells.
pub fn bitget_stream_update(symbol: Option<String>, row: Option<Vec<Cell>>) -> (r: Option<(String, KlineData)>)
    ensures
        r is Some <==> (symbol is Some && (row matches Some(cells) && cells@.len() >= 6)),
        r matches Some(u) ==> symbol matches Some(s) && row matches Some(cells) && u.0@ == s@
            && u.1 == RowLayout::TextTime.kline(cells@),
        r matches Some(u) ==> row matches Some(cells) && u.1.time == text_int_or_zero(cells@[0])
            && u.1.open == text_value_or_zero(cells@[1]) && u.1.high == text_value_or_zero(cells@[2])
            && u.1.low == text_value_or_zero(cells@[3]) && u.1.close == text_value_or_zero(cells@[4])
            && u.1.volume == text_value_or_zero(cells@[5]),
{
    match (symbol, row) {
        (Some(s), Some(cells)) => {
            let layout = RowLayout::TextTime;
            match layout.read_row(&cells) {
                Some(k) => Some((s, k)),
                None => None,
            }
        },
        _ => None,
    }
}

impl ExchangeKind {
    /// What a stream subscription names for a symbol: Binance the
    /// lowercase symbol with "@kline_1m", Bybit "kline.1." and the symbol,
    /// Bitget the symbol itself.
    pub open spec fn subscription_param(self, symbol: Seq<char>) -> Seq<char> {
        match self {
            ExchangeKind::Binance => lowercase(symbol) + "@kline_1m"@,
            ExchangeKind::Bybit => "kline.1."@ + symbol,
            _ => symbol,
        }
    }

    /// The names a stream subscription for `symbols` lists, one per symbol.
    pub fn subscription_params(&self, symbols: &Vec<String>) -> (r: Vec<String>)
        requires
            self.streams(),
        ensures
            r@.map_values(|s: String| s@) == symbols@.map_values(
                |s: String| self.subscription_param(s@),
            ),
            self is Binance ==> forall|i: int|
                0 <= i < symbols.len() && ascii_only(symbols[i]@) ==> #[trigger] r[i]@
                    == ascii_lowercase(symbols[i]@) + "@kline_1m"@,
    {
        let mut r: Vec<String> = Vec::new();
        let mut i: usize = 0;
        while i < symbols.len()
            invariant
                i <= symbols.len(),
                r@.map_values(|s: String| s@) == symbols@.take(i as int).map_values(
                    |s: String| self.subscription_param(s@),
                ),
                r.len() == i,
                self is Binance ==> forall|j: int|
                    0 <= j < i && ascii_only(symbols[j]@) ==> #[trigger] r[j]@
                        == ascii_lowercase(symbols[j]@) + "@kline_1m"@,
            decreases symbols.len() - i,
        {
            let ghost before = r@;
            let s = &symbols[i];
            let param = match self {
                ExchangeKind::Binance => to_lowercase(s.as_str()).concat("@kline_1m"),
                ExchangeKind::Bybit => String::from_str("kline.1.").concat(s.as_str()),
                _ => s.clone(),
            };
            r.push(param);
            assert(symbols@.take(i + 1) =~= symbols@.take(i as int).push(symbols@[i as int]));
            assert(r@.map_values(|s: String| s@) =~= before.map_values(|s: String| s@).push(
                self.subscription_param(symbols@[i as int]@),
            ));
            i = i + 1;
        }
        assert(symbols@.take(symbols.len() as int) =~= symbols@);
        r
    }
}

/// Whether an entry of Kraken's OHLC result holds the candles: a list under
/// any key but "last" (the key of the pair varies).
pub open spec fn holds_candles(entry: (String, bool)) -> bool {
    entry.0@ != "last"@ && entry.1
}

/// Which entry of Kraken's OHLC result holds the candles: the first list
/// not named "last". `entries` gives each entry's key and whether its value
/// is a list, in the result's order.
pub fn kraken_candle_entry(entries: &Vec<(String, bool)>) -> (r: Option<usize>)
    ensures
        r matches Some(i) ==> i < entries.len() && holds_candles(entries@[i as int]) && forall|j: int|
            0 <= j < i ==> !holds_candles(#[trigger] entries@[j]),
        r is None ==> forall|j: int| 0 <= j < entries.len() ==> !holds_candles(#[trigger] entries@[j]),
{
    let mut i: usize = 0;
    while i < entries.len()
        invariant
            i <= entries.len(),
            forall|j: int| 0 <= j < i ==> !holds_candles(#[trigger] entries@[j]),
        decreases entries.len() - i,
    {
        if entries[i].1 && !same_text(&entries[i].0, "last") {
            return Some(i);
        }
        i = i + 1;
    }
    None
}

} // verus!
