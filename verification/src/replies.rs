//! What the exchanges' REST answers hold: where each one keeps its
//! instrument list and its candle rows, and the error an answer gives when
//! it is not JSON or keeps them nowhere.
use vstd::prelude::*;
use crate::exchanges::{holds_candles, kraken_candle_entry, listed_symbol, ExchangeKind, Listing};
use crate::text::has_suffix;
use crate::json::{
    bool_field, bool_of, field, get_field, items, json_of, list_at, list_scalars, parse_json,
    scalars_of, text_field, text_of, JsonValue, Scalar,
};

verus! {

impl ExchangeKind {
    /// The error of an instrument list answer that is not JSON.
    pub open spec fn symbols_not_json(self) -> Seq<char> {
        match self {
            ExchangeKind::Binance => "Failed to parse Binance exchange info JSON"@,
            ExchangeKind::Mexc => "Failed to parse MEXC exchange info JSON"@,
            ExchangeKind::Bybit => "Failed to parse Bybit instruments JSON"@,
            ExchangeKind::Bitget => "Failed to parse Bitget symbols JSON"@,
            ExchangeKind::Okx => "Failed to parse JSON"@,
            ExchangeKind::KuCoin => "Failed to parse KuCoin symbols JSON"@,
            ExchangeKind::Gate => "Failed to parse Gate.io pairs JSON"@,
            ExchangeKind::Kraken => "Failed to parse Kraken pairs JSON"@,
        }
    }

    /// The error of an instrument list answer that holds no list where the
    /// exchange keeps it.
    pub open spec fn symbols_bad_format(self) -> Seq<char> {
        match self {
            ExchangeKind::Binance => "Invalid Binance exchange info format"@,
            ExchangeKind::Mexc => "Invalid MEXC exchange info format"@,
            ExchangeKind::Bybit => "Invalid Bybit instruments format"@,
            ExchangeKind::Bitget => "Invalid Bitget format"@,
            ExchangeKind::Okx => "Invalid format"@,
            ExchangeKind::KuCoin => "Invalid KuCoin format"@,
            ExchangeKind::Gate => "Invalid Gate.io format"@,
            ExchangeKind::Kraken => "Invalid Kraken format"@,
        }
    }

    /// The error of a candle answer that is not JSON (for Binance, MEXC and
    /// Gate, also one that is not a list of lists).
    pub open spec fn candles_not_json(self) -> Seq<char> {
        match self {
            ExchangeKind::Binance => "Failed to parse Binance kline JSON"@,
            ExchangeKind::Mexc => "Failed to parse MEXC kline JSON"@,
            ExchangeKind::Bybit => "Failed to parse Bybit kline JSON"@,
            ExchangeKind::Bitget => "Failed to parse Bitget kline JSON"@,
            ExchangeKind::Okx => "Failed to parse JSON"@,
            ExchangeKind::KuCoin => "Failed to parse KuCoin kline JSON"@,
            ExchangeKind::Gate => "Failed to parse Gate.io kline JSON"@,
            ExchangeKind::Kraken => "Failed to parse Kraken OHLC JSON"@,
        }
    }

    /// The error of a candle answer without the object or list where the
    /// exchange keeps its rows.
    pub open spec fn candles_bad_format(self) -> Seq<char> {
        match self {
            ExchangeKind::Bybit => "Invalid Bybit response format: 'list' not found"@,
            ExchangeKind::Bitget => "Invalid Bitget response format: 'data' not found"@,
            ExchangeKind::Okx => "Invalid response format: 'data' not found"@,
            ExchangeKind::KuCoin => "Invalid KuCoin response format: 'data' not found"@,
            ExchangeKind::Kraken => "Invalid Kraken response: 'result' not found"@,
            _ => self.candles_not_json(),
        }
    }

    /// The error message of an instrument list answer that is not JSON.
    pub fn symbols_parse_error(&self) -> (r: &'static str)
        ensures
            r@ == self.symbols_not_json(),
    {
        match self {
            ExchangeKind::Binance => "Failed to parse Binance exchange info JSON",
            ExchangeKind::Mexc => "Failed to parse MEXC exchange info JSON",
            ExchangeKind::Bybit => "Failed to parse Bybit instruments JSON",
            ExchangeKind::Bitget => "Failed to parse Bitget symbols JSON",
            ExchangeKind::Okx => "Failed to parse JSON",
            ExchangeKind::KuCoin => "Failed to parse KuCoin symbols JSON",
            ExchangeKind::Gate => "Failed to parse Gate.io pairs JSON",
            ExchangeKind::Kraken => "Failed to parse Kraken pairs JSON",
        }
    }

    fn symbols_format_error(&self) -> (r: &'static str)
        ensures
            r@ == self.symbols_bad_format(),
    {
        match self {
            ExchangeKind::Binance => "Invalid Binance exchange info format",
            ExchangeKind::Mexc => "Invalid MEXC exchange info format",
            ExchangeKind::Bybit => "Invalid Bybit instruments format",
            ExchangeKind::Bitget => "Invalid Bitget format",
            ExchangeKind::Okx => "Invalid format",
            ExchangeKind::KuCoin => "Invalid KuCoin format",
            ExchangeKind::Gate => "Invalid Gate.io format",
            ExchangeKind::Kraken => "Invalid Kraken format",
        }
    }

    /// The error message of a candle answer that is not JSON.
    pub fn candles_parse_error(&self) -> (r: &'static str)
        ensures
            r@ == self.candles_not_json(),
    {
        match self {
            ExchangeKind::Binance => "Failed to parse Binance kline JSON",
            ExchangeKind::Mexc => "Failed to parse MEXC kline JSON",
            ExchangeKind::Bybit => "Failed to parse Bybit kline JSON",
            ExchangeKind::Bitget => "Failed to parse Bitget kline JSON",
            ExchangeKind::Okx => "Failed to parse JSON",
            ExchangeKind::KuCoin => "Failed to parse KuCoin kline JSON",
            ExchangeKind::Gate => "Failed to parse Gate.io kline JSON",
            ExchangeKind::Kraken => "Failed to parse Kraken OHLC JSON",
        }
    }

    fn candles_format_error(&self) -> (r: &'static str)
        ensures
            r@ == self.candles_bad_format(),
    {
        match self {
            ExchangeKind::Bybit => "Invalid Bybit response format: 'list' not found",
            ExchangeKind::Bitget => "Invalid Bitget response format: 'data' not found",
            ExchangeKind::Okx => "Invalid response format: 'data' not found",
            ExchangeKind::KuCoin => "Invalid KuCoin response format: 'data' not found",
            ExchangeKind::Kraken => "Invalid Kraken response: 'result' not found",
            _ => self.candles_parse_error(),
        }
    }
}

impl ExchangeKind {
    /// The fields of an instrument entry that hold its symbol, its quote
    /// currency and its status; Kraken's entries are read for neither of the
    /// last two, nor KuCoin's for a status.
    pub open spec fn listing_fields(self) -> (Seq<char>, Option<Seq<char>>, Option<Seq<char>>) {
        match self {
            ExchangeKind::Binance => ("symbol"@, Some("quoteAsset"@), Some("status"@)),
            ExchangeKind::Mexc => ("symbol"@, Some("quoteAsset"@), Some("status"@)),
            ExchangeKind::Bybit => ("symbol"@, Some("quoteCoin"@), Some("status"@)),
            ExchangeKind::Bitget => ("symbol"@, Some("quoteCoin"@), Some("status"@)),
            ExchangeKind::Okx => ("instId"@, Some("quoteCcy"@), Some("state"@)),
            ExchangeKind::KuCoin => ("symbol"@, Some("quoteCurrency"@), None),
            ExchangeKind::Gate => ("id"@, Some("quote"@), Some("trade_status"@)),
            ExchangeKind::Kraken => ("altname"@, None, None),
        }
    }

    /// An instrument entry as a listing: the text of each of its fields, and
    /// its `enableTrading` flag and `wsname` text.
    pub open spec fn listing_of(self, v: JsonValue) -> Listing {
        let keys = self.listing_fields();
        Listing {
            symbol: text_of(field(v, keys.0)),
            quote: match keys.1 {
                Some(k) => text_of(field(v, k)),
                None => None,
            },
            status: match keys.2 {
                Some(k) => text_of(field(v, k)),
                None => None,
            },
            trading: bool_of(field(v, "enableTrading"@)),
            pair: text_of(field(v, "wsname"@)),
        }
    }

    /// The instrument entries of an answer: the list under `symbols`
    /// (Binance, MEXC), under `result.list` (Bybit), under `data` (Bitget,
    /// OKX, KuCoin), the answer itself (Gate), or the values of the object
    /// under `result` (Kraken).
    pub open spec fn listing_list(self, j: JsonValue) -> Option<Seq<JsonValue>> {
        match self {
            ExchangeKind::Binance | ExchangeKind::Mexc => items(field(j, "symbols"@)),
            ExchangeKind::Bybit => items(field(field(j, "result"@), "list"@)),
            ExchangeKind::Bitget | ExchangeKind::Okx | ExchangeKind::KuCoin => items(
                field(j, "data"@),
            ),
            ExchangeKind::Gate => items(j),
            ExchangeKind::Kraken => match field(j, "result"@) {
                JsonValue::Object(entries) => Some(
                    entries@.map_values(|e: (String, JsonValue)| e.1),
                ),
                _ => None,
            },
        }
    }

    /// The listings an instrument list answer holds, or its error.
    pub open spec fn listings_reply(self, body: Seq<char>) -> Result<Seq<Listing>, Seq<char>> {
        match json_of(body) {
            None => Err(self.symbols_not_json()),
            Some(j) => match self.listing_list(j) {
                None => Err(self.symbols_bad_format()),
                Some(xs) => Ok(xs.map_values(|x: JsonValue| self.listing_of(x))),
            },
        }
    }

    fn listing_field_names(&self) -> (r: (&'static str, Option<&'static str>, Option<&'static str>))
        ensures
            r.0@ == self.listing_fields().0,
            r.1 matches Some(k) ==> self.listing_fields().1 == Some(k@),
            r.1 is None ==> self.listing_fields().1 is None,
            r.2 matches Some(k) ==> self.listing_fields().2 == Some(k@),
            r.2 is None ==> self.listing_fields().2 is None,
    {
        match self {
            ExchangeKind::Binance => ("symbol", Some("quoteAsset"), Some("status")),
            ExchangeKind::Mexc => ("symbol", Some("quoteAsset"), Some("status")),
            ExchangeKind::Bybit => ("symbol", Some("quoteCoin"), Some("status")),
            ExchangeKind::Bitget => ("symbol", Some("quoteCoin"), Some("status")),
            ExchangeKind::Okx => ("instId", Some("quoteCcy"), Some("state")),
            ExchangeKind::KuCoin => ("symbol", Some("quoteCurrency"), None),
            ExchangeKind::Gate => ("id", Some("quote"), Some("trade_status")),
            ExchangeKind::Kraken => ("altname", None, None),
        }
    }

    /// An instrument entry as a listing.
    fn listing_from(&self, v: &JsonValue) -> (r: Listing)
        ensures
            r == self.listing_of(*v),
    {
        let keys = self.listing_field_names();
        let quote = match keys.1 {
            Some(k) => text_field(v, k),
            None => None,
        };
        let status = match keys.2 {
            Some(k) => text_field(v, k),
            None => None,
        };
        Listing {
            symbol: text_field(v, keys.0),
            quote,
            status,
            trading: bool_field(v, "enableTrading"),
            pair: text_field(v, "wsname"),
        }
    }

    /// The listings of a list of instrument entries.
    fn listings_from(&self, xs: &Vec<JsonValue>) -> (r: Vec<Listing>)
        ensures
            r@ == xs@.map_values(|x: JsonValue| self.listing_of(x)),
    {
        let mut r: Vec<Listing> = Vec::new();
        let mut i: usize = 0;
        while i < xs.len()
            invariant
                i <= xs.len(),
                r@ =~= xs@.take(i as int).map_values(|x: JsonValue| self.listing_of(x)),
            decreases xs.len() - i,
        {
            r.push(self.listing_from(&xs[i]));
            assert(xs@.take(i + 1) =~= xs@.take(i as int).push(xs@[i as int]));
            i = i + 1;
        }
        assert(xs@.take(xs.len() as int) =~= xs@);
        r
    }

    /// The listings of the values of an object's entries, in order.
    fn listings_from_values(&self, entries: &Vec<(String, JsonValue)>) -> (r: Vec<Listing>)
        ensures
            r@ == entries@.map_values(|e: (String, JsonValue)| e.1).map_values(
                |x: JsonValue| self.listing_of(x),
            ),
    {
        let ghost values = entries@.map_values(|e: (String, JsonValue)| e.1);
        let mut r: Vec<Listing> = Vec::new();
        let mut i: usize = 0;
        while i < entries.len()
            invariant
                i <= entries.len(),
                values == entries@.map_values(|e: (String, JsonValue)| e.1),
                r@ =~= values.take(i as int).map_values(|x: JsonValue| self.listing_of(x)),
            decreases entries.len() - i,
        {
            r.push(self.listing_from(&entries[i].1));
            assert(values.take(i + 1) =~= values.take(i as int).push(values[i as int]));
            i = i + 1;
        }
        assert(values.take(entries.len() as int) =~= values);
        r
    }

    /// The instrument listings that an answer's text holds, in order; the
    /// exchange's error message when the text is not JSON or keeps no list
    /// where the exchange keeps its instruments.
    pub fn listings_in(&self, body: &str) -> (r: Result<Vec<Listing>, &'static str>)
        ensures
            match self.listings_reply(body@) {
                Ok(ls) => r matches Ok(v) && v@ == ls,
                Err(m) => r matches Err(e) && e@ == m,
            },
    {
        let j = match parse_json(body) {
            Some(j) => j,
            None => {
                return Err(self.symbols_parse_error());
            },
        };
        let listed = match self {
            ExchangeKind::Binance | ExchangeKind::Mexc => list_at(&j, "symbols"),
            ExchangeKind::Bybit => match get_field(&j, "result") {
                Some(result) => list_at(result, "list"),
                None => None,
            },
            ExchangeKind::Bitget | ExchangeKind::Okx | ExchangeKind::KuCoin => list_at(&j, "data"),
            ExchangeKind::Gate => match &j {
                JsonValue::Array(xs) => Some(xs),
                _ => None,
            },
            ExchangeKind::Kraken => {
                return match get_field(&j, "result") {
                    Some(JsonValue::Object(entries)) => Ok(self.listings_from_values(entries)),
                    _ => Err(self.symbols_format_error()),
                };
            },
        };
        match listed {
            Some(xs) => Ok(self.listings_from(xs)),
            None => Err(self.symbols_format_error()),
        }
    }
}

/// The text field `name` of an entry is `lit`.
pub open spec fn says(v: JsonValue, name: Seq<char>, lit: Seq<char>) -> bool {
    text_of(field(v, name)) matches Some(t) && t@ == lit
}

/// The text of an entry's field `name`, empty text if it has none.
pub open spec fn text_or_empty(v: JsonValue, name: Seq<char>) -> Seq<char> {
    match text_of(field(v, name)) {
        Some(t) => t@,
        None => Seq::empty(),
    }
}

/// Which instrument entries an exchange counts as tradable USDT pairs, by
/// the entry's own fields, and the symbol each contributes. Binance:
/// `quoteAsset` "USDT" and `status` "TRADING"; MEXC: `quoteAsset` "USDT"
/// and `status` "ENABLED", "TRADING" or "1"; Bybit: `quoteCoin` "USDT" and
/// `status` "Trading"; Bitget: `quoteCoin` "USDT" and `status` "online";
/// OKX: `quoteCcy` "USDT" and `state` "live"; KuCoin: `quoteCurrency`
/// "USDT" and `enableTrading` true; Gate: `quote` "USDT" and
/// `trade_status` "tradable"; Kraken: a `wsname` ending in "/USDT" and an
/// `altname`. The symbol is the text of `symbol` (`instId` for OKX, `id`
/// for Gate, `altname` for Kraken), empty text if there is none.
pub proof fn usdt_entries(kind: ExchangeKind, v: JsonValue)
    ensures
        kind is Binance ==> (kind.accepts(kind.listing_of(v)) <==> says(v, "quoteAsset"@, "USDT"@)
            && says(v, "status"@, "TRADING"@)),
        kind is Mexc ==> (kind.accepts(kind.listing_of(v)) <==> says(v, "quoteAsset"@, "USDT"@) && (
        says(v, "status"@, "ENABLED"@) || says(v, "status"@, "TRADING"@) || says(
            v,
            "status"@,
            "1"@,
        ))),
        kind is Bybit ==> (kind.accepts(kind.listing_of(v)) <==> says(v, "quoteCoin"@, "USDT"@)
            && says(v, "status"@, "Trading"@)),
        kind is Bitget ==> (kind.accepts(kind.listing_of(v)) <==> says(v, "quoteCoin"@, "USDT"@)
            && says(v, "status"@, "online"@)),
        kind is Okx ==> (kind.accepts(kind.listing_of(v)) <==> says(v, "quoteCcy"@, "USDT"@) && says(
            v,
            "state"@,
            "live"@,
        )),
        kind is KuCoin ==> (kind.accepts(kind.listing_of(v)) <==> says(v, "quoteCurrency"@, "USDT"@)
            && field(v, "enableTrading"@) == JsonValue::Bool(true)),
        kind is Gate ==> (kind.accepts(kind.listing_of(v)) <==> says(v, "quote"@, "USDT"@) && says(
            v,
            "trade_status"@,
            "tradable"@,
        )),
        kind is Kraken ==> (kind.accepts(kind.listing_of(v)) <==> (text_of(field(v, "wsname"@)) matches Some(
            p,
        ) && has_suffix(p@, "/USDT"@)) && text_of(field(v, "altname"@)) is Some),
        (kind is Binance || kind is Mexc || kind is Bybit || kind is Bitget || kind is KuCoin)
            ==> listed_symbol(kind.listing_of(v)) == text_or_empty(v, "symbol"@),
        kind is Okx ==> listed_symbol(kind.listing_of(v)) == text_or_empty(v, "instId"@),
        kind is Gate ==> listed_symbol(kind.listing_of(v)) == text_or_empty(v, "id"@),
        kind is Kraken ==> listed_symbol(kind.listing_of(v)) == text_or_empty(v, "altname"@),
{
}

/// Where each exchange's answers keep their lists. Instrument lists: under
/// `symbols` (Binance, MEXC), under `list` in `result` (Bybit), under
/// `data` (Bitget, OKX, KuCoin), the answer itself (Gate), the values of
/// the `result` object (Kraken). Candle rows: under `list` in `result`
/// (Bybit), under `data` (Bitget, OKX, KuCoin), the answer itself when it
/// is a list of lists (Binance, MEXC, Gate).
pub proof fn answers_keep_their_lists(kind: ExchangeKind, j: JsonValue)
    ensures
        (kind is Binance || kind is Mexc) ==> (field(j, "symbols"@) matches JsonValue::Array(l)
            ==> kind.listing_list(j) == Some(l@)),
        (kind is Binance || kind is Mexc) ==> (!(field(j, "symbols"@) is Array)
            ==> kind.listing_list(j) is None),
        kind is Bybit ==> (field(field(j, "result"@), "list"@) matches JsonValue::Array(l)
            ==> kind.listing_list(j) == Some(l@) && kind.candle_list(j) == Ok::<Seq<JsonValue>, Seq<char>>(l@)),
        kind is Bybit ==> (!(field(field(j, "result"@), "list"@) is Array) ==> kind.listing_list(j) is None
            && kind.candle_list(j) is Err),
        (kind is Bitget || kind is Okx || kind is KuCoin) ==> (field(j, "data"@) matches JsonValue::Array(l)
            ==> kind.listing_list(j) == Some(l@) && kind.candle_list(j) == Ok::<Seq<JsonValue>, Seq<char>>(l@)),
        (kind is Bitget || kind is Okx || kind is KuCoin) ==> (!(field(j, "data"@) is Array)
            ==> kind.listing_list(j) is None && kind.candle_list(j) is Err),
        kind is Gate ==> (j matches JsonValue::Array(l) ==> kind.listing_list(j) == Some(l@)),
        kind is Gate ==> (!(j is Array) ==> kind.listing_list(j) is None),
        kind is Kraken ==> (field(j, "result"@) matches JsonValue::Object(entries)
            ==> kind.listing_list(j) == Some(entries@.map_values(|e: (String, JsonValue)| e.1))),
        kind is Kraken ==> (!(field(j, "result"@) is Object) ==> kind.listing_list(j) is None
            && kind.candle_list(j) is Err),
        (kind is Binance || kind is Mexc || kind is Gate) ==> (j matches JsonValue::Array(l)
            ==> (kind.candle_list(j) is Ok <==> forall|k: int| 0 <= k < l.len() ==> #[trigger] l@[k] is Array)),
        (kind is Binance || kind is Mexc || kind is Gate) ==> (kind.candle_list(j) matches Ok(rows)
            ==> items(j) == Some(rows)),
{
}

/// The cells of a candle row; a row that is no list has none.
pub open spec fn row_scalars(v: JsonValue) -> Seq<Scalar> {
    match list_scalars(v) {
        Some(cells) => cells,
        None => Seq::empty(),
    }
}

/// Every item is a list.
pub open spec fn all_lists(xs: Seq<JsonValue>) -> bool {
    forall|i: int| 0 <= i < xs.len() ==> #[trigger] xs[i] is Array
}

/// The rows of the first entry of Kraken's OHLC result that holds candles
/// (a list under any key but "last").
pub open spec fn first_candle_list(entries: Seq<(String, JsonValue)>) -> Option<Seq<JsonValue>>
    decreases entries.len(),
{
    if entries.len() == 0 {
        None
    } else {
        let earlier = first_candle_list(entries.drop_last());
        if earlier is Some {
            earlier
        } else if holds_candles((entries.last().0, entries.last().1 is Array)) {
            items(entries.last().1)
        } else {
            None
        }
    }
}

proof fn lemma_first_candle_list(entries: Seq<(String, JsonValue)>, i: int)
    requires
        0 <= i <= entries.len(),
        forall|k: int|
            0 <= k < i ==> !holds_candles((#[trigger] entries[k].0, entries[k].1 is Array)),
        i < entries.len() ==> holds_candles((entries[i].0, entries[i].1 is Array)),
    ensures
        i < entries.len() ==> first_candle_list(entries) == items(entries[i].1),
        i == entries.len() ==> first_candle_list(entries) is None,
    decreases entries.len(),
{
    if entries.len() > 0 {
        let earlier = entries.drop_last();
        if i < entries.len() - 1 {
            lemma_first_candle_list(earlier, i);
            assert(earlier[i] == entries[i]);
        } else if i == entries.len() - 1 {
            assert forall|k: int|
                0 <= k < earlier.len() implies !holds_candles(
                (#[trigger] earlier[k].0, earlier[k].1 is Array),
            ) by {
                assert(earlier[k] == entries[k]);
            }
            lemma_first_candle_list(earlier, earlier.len() as int);
        } else {
            assert forall|k: int|
                0 <= k < earlier.len() implies !holds_candles(
                (#[trigger] earlier[k].0, earlier[k].1 is Array),
            ) by {
                assert(earlier[k] == entries[k]);
            }
            lemma_first_candle_list(earlier, earlier.len() as int);
            assert(!holds_candles((entries[i - 1].0, entries[i - 1].1 is Array)));
        }
    }
}

impl ExchangeKind {
    /// The candle rows of an answer: the answer itself, which must be a list
    /// of lists (Binance, MEXC, Gate); the list under `result.list` (Bybit)
    /// or `data` (Bitget, OKX, KuCoin); or the first list of the object under
    /// `result` not named "last" (Kraken). Otherwise the exchange's error.
    pub open spec fn candle_list(self, j: JsonValue) -> Result<Seq<JsonValue>, Seq<char>> {
        match self {
            ExchangeKind::Binance | ExchangeKind::Mexc | ExchangeKind::Gate => match items(j) {
                Some(rows) => if all_lists(rows) {
                    Ok(rows)
                } else {
                    Err(self.candles_not_json())
                },
                None => Err(self.candles_not_json()),
            },
            ExchangeKind::Bybit => match items(field(field(j, "result"@), "list"@)) {
                Some(rows) => Ok(rows),
                None => Err(self.candles_bad_format()),
            },
            ExchangeKind::Bitget | ExchangeKind::Okx | ExchangeKind::KuCoin => match items(
                field(j, "data"@),
            ) {
                Some(rows) => Ok(rows),
                None => Err(self.candles_bad_format()),
            },
            ExchangeKind::Kraken => match field(j, "result"@) {
                JsonValue::Object(entries) => match first_candle_list(entries@) {
                    Some(rows) => Ok(rows),
                    None => Err("No candle data found in Kraken response"@),
                },
                _ => Err(self.candles_bad_format()),
            },
        }
    }

    /// The cells of each candle row that an answer's text holds, or its
    /// error.
    pub open spec fn candle_reply(self, body: Seq<char>) -> Result<Seq<Seq<Scalar>>, Seq<char>> {
        match json_of(body) {
            None => Err(self.candles_not_json()),
            Some(j) => match self.candle_list(j) {
                Ok(rows) => Ok(rows.map_values(|r: JsonValue| row_scalars(r))),
                Err(m) => Err(m),
            },
        }
    }

    /// The cells of each candle row that an answer's text holds, in order (a
    /// row that is no list has none); the exchange's error message when the
    /// text is not JSON or keeps no rows where the exchange keeps them.
    pub fn candle_rows(&self, body: &str) -> (r: Result<Vec<Vec<Scalar>>, &'static str>)
        ensures
            match self.candle_reply(body@) {
                Ok(rows) => r matches Ok(v) && v@.map_values(|x: Vec<Scalar>| x@) == rows,
                Err(m) => r matches Err(e) && e@ == m,
            },
    {
        let j = match parse_json(body) {
            Some(j) => j,
            None => {
                return Err(self.candles_parse_error());
            },
        };
        match self {
            ExchangeKind::Binance | ExchangeKind::Mexc | ExchangeKind::Gate => match &j {
                JsonValue::Array(rows) => if every_row_a_list(rows) {
                    Ok(rows_scalars(rows))
                } else {
                    Err(self.candles_parse_error())
                },
                _ => Err(self.candles_parse_error()),
            },
            ExchangeKind::Bybit => {
                let rows = match get_field(&j, "result") {
                    Some(result) => list_at(result, "list"),
                    None => None,
                };
                match rows {
                    Some(rows) => Ok(rows_scalars(rows)),
                    None => Err(self.candles_format_error()),
                }
            },
            ExchangeKind::Bitget | ExchangeKind::Okx | ExchangeKind::KuCoin => match list_at(
                &j,
                "data",
            ) {
                Some(rows) => Ok(rows_scalars(rows)),
                None => Err(self.candles_format_error()),
            },
            ExchangeKind::Kraken => match get_field(&j, "result") {
                Some(JsonValue::Object(entries)) => {
                    let flags = candle_flags(entries);
                    let found = kraken_candle_entry(&flags);
                    let n: usize = match found {
                        Some(i) => i,
                        None => entries.len(),
                    };
                    assert forall|k: int| 0 <= k < n implies !holds_candles(
                        (#[trigger] entries@[k].0, entries@[k].1 is Array),
                    ) by {
                        assert(flags@[k] == (entries@[k].0, entries@[k].1 is Array));
                    }
                    match found {
                        Some(i) => {
                            proof {
                                assert(flags@[i as int] == (entries@[i as int].0, entries@[i as int].1 is Array));
                                lemma_first_candle_list(entries@, i as int);
                            }
                            match &entries[i].1 {
                                JsonValue::Array(rows) => Ok(rows_scalars(rows)),
                                _ => Err("No candle data found in Kraken response"),
                            }
                        },
                        None => {
                            proof {
                                lemma_first_candle_list(entries@, entries@.len() as int);
                            }
                            Err("No candle data found in Kraken response")
                        },
                    }
                },
                _ => Err(self.candles_format_error()),
            },
        }
    }
}

/// Whether every row is a list.
fn every_row_a_list(rows: &Vec<JsonValue>) -> (r: bool)
    ensures
        r == all_lists(rows@),
{
    let mut i: usize = 0;
    while i < rows.len()
        invariant
            i <= rows.len(),
            forall|k: int| 0 <= k < i ==> #[trigger] rows@[k] is Array,
        decreases rows.len() - i,
    {
        match &rows[i] {
            JsonValue::Array(_) => {},
            _ => {
                return false;
            },
        }
        i = i + 1;
    }
    true
}

/// The cells of each row.
fn rows_scalars(rows: &Vec<JsonValue>) -> (r: Vec<Vec<Scalar>>)
    ensures
        r@.map_values(|x: Vec<Scalar>| x@) == rows@.map_values(|v: JsonValue| row_scalars(v)),
{
    let mut r: Vec<Vec<Scalar>> = Vec::new();
    let mut i: usize = 0;
    while i < rows.len()
        invariant
            i <= rows.len(),
            r@.map_values(|x: Vec<Scalar>| x@) =~= rows@.take(i as int).map_values(
                |v: JsonValue| row_scalars(v),
            ),
        decreases rows.len() - i,
    {
        let cells = match &rows[i] {
            JsonValue::Array(xs) => scalars_of(xs),
            _ => Vec::new(),
        };
        let ghost before = r@;
        assert(cells@ == row_scalars(rows@[i as int]));
        r.push(cells);
        assert(r@.map_values(|x: Vec<Scalar>| x@) =~= before.map_values(|x: Vec<Scalar>| x@).push(
            cells@,
        ));
        assert(rows@.take(i + 1) =~= rows@.take(i as int).push(rows@[i as int]));
        i = i + 1;
    }
    assert(rows@.take(rows.len() as int) =~= rows@);
    r
}

/// Each entry's key, and whether its value is a list.
fn candle_flags(entries: &Vec<(String, JsonValue)>) -> (r: Vec<(String, bool)>)
    ensures
        r.len() == entries.len(),
        forall|k: int|
            0 <= k < entries.len() ==> #[trigger] r@[k] == (entries@[k].0, entries@[k].1 is Array),
{
    let mut r: Vec<(String, bool)> = Vec::new();
    let mut i: usize = 0;
    while i < entries.len()
        invariant
            i <= entries.len(),
            r.len() == i,
            forall|k: int| 0 <= k < i ==> #[trigger] r@[k] == (entries@[k].0, entries@[k].1 is Array),
        decreases entries.len() - i,
    {
        let is_list = match &entries[i].1 {
            JsonValue::Array(_) => true,
            _ => false,
        };
        r.push((entries[i].0.clone(), is_list));
        i = i + 1;
    }
    r
}

} // verus!
