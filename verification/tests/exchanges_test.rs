use rust_chart_lib::exchanges::{
    bitget_stream_update, bybit_stream_update, is_pong, kraken_candle_entry, mentions_kline, Cell,
    ExchangeKind, Listing,
};
use rust_chart_lib::json::{bitget_message_fields, bybit_message_fields, integer_of, Scalar};
use rust_chart_lib::num::Double;
use rust_chart_lib::text::{parse_i64, contains, ends_with, remove_all, starts_with};
use rust_chart_lib::websocket::{chunk_symbols, react, Link, StreamAction, StreamEvent, CHUNK_SIZE};

fn d(x: f64) -> Double {
    Double::from_bits(x.to_bits())
}

fn value(x: Double) -> f64 {
    f64::from_bits(x.bits)
}

fn text(s: &str) -> Cell {
    Cell::Text {
        text: s.to_string(),
        value: s.parse::<f64>().ok().map(d),
    }
}

fn whole_number(n: i64) -> Cell {
    Cell::Number {
        int: Some(n),
        value: d(n as f64),
        whole: n,
    }
}

fn float(x: f64) -> Cell {
    Cell::Number {
        int: None,
        value: d(x),
        whole: x as i64,
    }
}

/// A stream field as a cell: numbers and texts read as doubles.
fn scalar_cell(s: Scalar) -> Cell {
    match s {
        Scalar::Number(t) => {
            let value = t.parse::<f64>().unwrap();
            Cell::Number {
                int: integer_of(&t),
                value: d(value),
                whole: value as i64,
            }
        }
        Scalar::Text(t) => text(&t),
        Scalar::Other => Cell::Other,
    }
}

fn cells(row: Option<Vec<Scalar>>) -> Option<Vec<Cell>> {
    row.map(|r| r.into_iter().map(scalar_cell).collect())
}

#[test]
fn test_bybit_parse_websocket() {
    let msg = r#"{"topic":"kline.1.BTCUSDT","data":[{"start":1672531200000,"end":1672531260000,"interval":"1","open":"16500.5","close":"16501.0","high":"16502.0","low":"16500.0","volume":"10.5","turnover":"173260.5","confirm":false,"timestamp":1672531201000}],"ts":1672531201000,"type":"snapshot"}"#;

    let (topic, first) = bybit_message_fields(msg).unwrap();
    let result = bybit_stream_update(topic, cells(first));
    assert!(result.is_some());
    let (symbol, kline) = result.unwrap();
    assert_eq!(symbol, "BTCUSDT");
    assert_eq!(value(kline.close), 16501.0);
    assert_eq!(kline.time, 1672531200000);
    assert_eq!(value(kline.open), 16500.5);
    assert_eq!(value(kline.volume), 10.5);
}

#[test]
fn test_bitget_parse_websocket() {
    let msg = r#"{"action":"update","arg":{"instType":"SPOT","channel":"candle1m","instId":"BTCUSDT"},"data":[["1672531200000","16500.5","16502.0","16500.0","16501.0","10.5"]],"ts":1672531201000}"#;

    let (symbol, row) = bitget_message_fields(msg).unwrap();
    let result = bitget_stream_update(symbol, cells(row));
    assert!(result.is_some());
    let (symbol, kline) = result.unwrap();
    assert_eq!(symbol, "BTCUSDT");
    assert_eq!(value(kline.close), 16501.0);
    assert_eq!(kline.time, 1672531200000);
}

#[test]
fn stream_message_fields() {
    assert!(bybit_message_fields("not json").is_err());
    assert!(bitget_message_fields("not json").is_err());
    let (s, r) = bitget_message_fields("pong").unwrap();
    assert!(s.is_none() && r.is_none());
    let (topic, first) = bybit_message_fields(r#"{"op":"pong","success":true}"#).unwrap();
    assert!(topic.is_none() && first.is_none());
    let (topic, first) = bybit_message_fields(r#"{"topic":"kline.1.X","data":[]}"#).unwrap();
    assert_eq!(topic.as_deref(), Some("kline.1.X"));
    assert!(first.is_none());
    let (topic, first) = bybit_message_fields(r#"{"topic":7,"data":[3]}"#).unwrap();
    assert!(topic.is_none());
    let first = first.unwrap();
    assert_eq!(first.len(), 6);
    assert!(first.iter().all(|c| matches!(c, Scalar::Other)));
    let (topic, first) =
        bybit_message_fields(r#"{"topic":"t","data":[{"start":-5,"open":1.5,"close":null}]}"#).unwrap();
    assert_eq!(topic.as_deref(), Some("t"));
    let first = first.unwrap();
    assert!(matches!(&first[0], Scalar::Number(t) if t == "-5"));
    assert!(matches!(&first[1], Scalar::Number(t) if t == "1.5"));
    assert!(matches!(&first[4], Scalar::Other));
    // An `arg` that is no object, and a first data entry that is no list.
    let (symbol, row) = bitget_message_fields(r#"{"arg":"BTC","data":[{"a":1}]}"#).unwrap();
    assert!(symbol.is_none() && row.is_none());
    let (symbol, row) = bitget_message_fields(r#"{"arg":{"instId":"ETHUSDT"},"data":[[1,"2",true]]}"#)
        .unwrap();
    assert_eq!(symbol.as_deref(), Some("ETHUSDT"));
    let row = row.unwrap();
    assert_eq!(row.len(), 3);
    assert!(matches!(&row[0], Scalar::Number(t) if t == "1"));
    assert!(matches!(&row[1], Scalar::Text(t) if t == "2"));
    assert!(matches!(&row[2], Scalar::Other));
    assert_eq!(integer_of("1672531200000"), Some(1672531200000));
    assert_eq!(integer_of("1.5"), None);
}

#[test]
fn kraken_candle_list() {
    let entries = vec![
        ("last".to_string(), true),
        ("A".to_string(), false),
        ("XXBTZUSD".to_string(), true),
        ("Z".to_string(), true),
    ];
    assert_eq!(kraken_candle_entry(&entries), Some(2));
    assert_eq!(kraken_candle_entry(&entries[..2].to_vec()), None);
    assert_eq!(kraken_candle_entry(&vec![]), None);
}

#[test]
fn stream_messages_without_klines_carry_none() {
    assert!(is_pong("pong"));
    assert!(!mentions_kline(r#"{"result":null,"id":1}"#));
    assert!(mentions_kline(r#"{"stream":"btcusdt@kline_1m","data":{"k":{}}}"#));
    assert!(bybit_stream_update(Some("tickers.BTCUSDT".to_string()), Some(vec![Cell::Other; 6]))
        .is_none());
    assert!(bybit_stream_update(Some("kline.1.BTCUSDT".to_string()), None).is_none());
    assert!(bybit_stream_update(None, Some(vec![Cell::Other; 6])).is_none());
    let blank = bybit_stream_update(Some("kline.1.ETHUSDT".to_string()), Some(vec![Cell::Other; 6]))
        .unwrap();
    assert_eq!(blank.0, "ETHUSDT");
    assert_eq!(blank.1.time, 0);
    assert_eq!(value(blank.1.open), 0.0);
    assert!(bitget_stream_update(None, Some(vec![text("1"); 6])).is_none());
    assert!(bitget_stream_update(Some("X".to_string()), Some(vec![text("1"); 5])).is_none());
}

#[test]
fn exchange_names() {
    assert_eq!(ExchangeKind::from_name("bybit"), ExchangeKind::Bybit);
    assert_eq!(ExchangeKind::from_name("ByBit"), ExchangeKind::Bybit);
    assert_eq!(ExchangeKind::from_name("KRAKEN"), ExchangeKind::Kraken);
    assert_eq!(ExchangeKind::from_name("gate"), ExchangeKind::Gate);
    assert_eq!(ExchangeKind::from_name("MEXC"), ExchangeKind::Mexc);
    assert_eq!(ExchangeKind::from_name("OKX"), ExchangeKind::Okx);
    assert_eq!(ExchangeKind::from_name("KuCoin"), ExchangeKind::KuCoin);
    assert_eq!(ExchangeKind::from_name("Bitget"), ExchangeKind::Bitget);
    assert_eq!(ExchangeKind::from_name("unknown"), ExchangeKind::Binance);
    assert_eq!(ExchangeKind::from_name(""), ExchangeKind::Binance);
    for k in [
        ExchangeKind::Binance,
        ExchangeKind::Bybit,
        ExchangeKind::Bitget,
        ExchangeKind::Okx,
        ExchangeKind::KuCoin,
        ExchangeKind::Kraken,
        ExchangeKind::Gate,
        ExchangeKind::Mexc,
    ] {
        assert_eq!(ExchangeKind::from_name(k.id()), k);
    }
}

#[test]
fn intervals() {
    assert_eq!(ExchangeKind::Bybit.chart_interval(), "1");
    assert_eq!(ExchangeKind::Kraken.chart_interval(), "1");
    assert_eq!(ExchangeKind::Binance.chart_interval(), "1m");
    assert_eq!(ExchangeKind::Okx.chart_interval(), "1m");
    assert_eq!(ExchangeKind::Bybit.scan_interval("1h"), "60");
    assert_eq!(ExchangeKind::Bybit.scan_interval("4h"), "240");
    assert_eq!(ExchangeKind::Bybit.scan_interval("1d"), "D");
    assert_eq!(ExchangeKind::Kraken.scan_interval("1h"), "60");
    assert_eq!(ExchangeKind::Kraken.scan_interval("4h"), "240");
    assert_eq!(ExchangeKind::Kraken.scan_interval("1d"), "1440");
    assert_eq!(ExchangeKind::Kraken.scan_interval("15m"), "15m");
    assert_eq!(ExchangeKind::Binance.scan_interval("1d"), "1d");
    assert_eq!(ExchangeKind::Bitget.request_interval("1m"), "1min");
    assert_eq!(ExchangeKind::KuCoin.request_interval("1m"), "1min");
    assert_eq!(ExchangeKind::Kraken.request_interval("1m"), "1");
    assert_eq!(ExchangeKind::Kraken.request_interval("60"), "60");
    assert_eq!(ExchangeKind::Gate.request_interval("1m"), "1m");
    assert_eq!(ExchangeKind::Bitget.request_interval("1min"), "1min");
}

#[test]
fn stream_endpoints() {
    assert!(ExchangeKind::Binance.has_stream());
    assert!(ExchangeKind::Bybit.has_stream());
    assert!(ExchangeKind::Bitget.has_stream());
    assert!(!ExchangeKind::Kraken.has_stream());
    assert!(!ExchangeKind::Okx.has_stream());
    assert_eq!(
        ExchangeKind::Binance.websocket_url(),
        "wss://stream.binance.com:9443/stream"
    );
    assert_eq!(
        ExchangeKind::Bybit.websocket_url(),
        "wss://stream.bybit.com/v5/public/spot"
    );
    assert_eq!(
        ExchangeKind::Bitget.websocket_url(),
        "wss://ws.bitget.com/v2/ws/public"
    );
    let symbols = vec!["BTCUSDT".to_string(), "EthUsdt".to_string()];
    assert_eq!(
        ExchangeKind::Binance.subscription_params(&symbols),
        vec!["btcusdt@kline_1m", "ethusdt@kline_1m"]
    );
    assert_eq!(
        ExchangeKind::Bybit.subscription_params(&symbols),
        vec!["kline.1.BTCUSDT", "kline.1.EthUsdt"]
    );
    assert_eq!(ExchangeKind::Bitget.subscription_params(&symbols), symbols);
}

fn listing(symbol: Option<&str>, quote: Option<&str>, status: Option<&str>) -> Listing {
    Listing {
        symbol: symbol.map(|s| s.to_string()),
        quote: quote.map(|s| s.to_string()),
        status: status.map(|s| s.to_string()),
        trading: None,
        pair: None,
    }
}

#[test]
fn usdt_listings() {
    let ls = vec![
        listing(Some("BTCUSDT"), Some("USDT"), Some("TRADING")),
        listing(Some("ETHBTC"), Some("BTC"), Some("TRADING")),
        listing(Some("OLDUSDT"), Some("USDT"), Some("BREAK")),
        listing(None, Some("USDT"), Some("TRADING")),
        listing(Some("XUSDT"), Some("USDT"), Some("ENABLED")),
        listing(Some("YUSDT"), Some("USDT"), Some("1")),
        listing(Some("ZUSDT"), Some("USDT"), None),
    ];
    assert_eq!(ExchangeKind::Binance.usdt_symbols(&ls), vec!["BTCUSDT", ""]);
    assert_eq!(
        ExchangeKind::Mexc.usdt_symbols(&ls),
        vec!["BTCUSDT", "", "XUSDT", "YUSDT"]
    );
    assert!(ExchangeKind::Bybit.usdt_symbols(&ls).is_empty());
    let bybit = vec![listing(Some("BTCUSDT"), Some("USDT"), Some("Trading"))];
    assert_eq!(ExchangeKind::Bybit.usdt_symbols(&bybit), vec!["BTCUSDT"]);
    let okx = vec![listing(Some("BTC-USDT"), Some("USDT"), Some("live"))];
    assert_eq!(ExchangeKind::Okx.usdt_symbols(&okx), vec!["BTC-USDT"]);
    let bitget = vec![listing(Some("BTCUSDT"), Some("USDT"), Some("online"))];
    assert_eq!(ExchangeKind::Bitget.usdt_symbols(&bitget), vec!["BTCUSDT"]);
    let gate = vec![
        listing(Some("BTC_USDT"), Some("USDT"), Some("tradable")),
        listing(Some("ETH_USDT"), Some("USDT"), Some("untradable")),
    ];
    assert_eq!(ExchangeKind::Gate.usdt_symbols(&gate), vec!["BTC_USDT"]);
    let mut on = listing(Some("BTC-USDT"), Some("USDT"), None);
    on.trading = Some(true);
    let mut off = listing(Some("ETH-USDT"), Some("USDT"), None);
    off.trading = Some(false);
    assert_eq!(ExchangeKind::KuCoin.usdt_symbols(&vec![on, off]), vec!["BTC-USDT"]);
    let mut xbt = listing(Some("XBTUSDT"), None, None);
    xbt.pair = Some("XBT/USDT".to_string());
    let mut eur = listing(Some("XBTEUR"), None, None);
    eur.pair = Some("XBT/EUR".to_string());
    let mut nameless = listing(None, None, None);
    nameless.pair = Some("ETH/USDT".to_string());
    assert_eq!(
        ExchangeKind::Kraken.usdt_symbols(&vec![xbt, eur, nameless]),
        vec!["XBTUSDT"]
    );
}

fn texts(cells: &[&str]) -> Vec<Cell> {
    cells.iter().map(|s| text(s)).collect()
}

#[test]
fn binance_rows() {
    let mut row = vec![whole_number(1000)];
    row.extend(texts(&["1.0", "2.0", "0.5", "1.5", "10", "x"]));
    let short = vec![whole_number(2000), text("1")];
    let rows = vec![row, short, vec![text("7"), Cell::Other, text("abc"), text("3"), text("4"), text("5")]];
    let kind = ExchangeKind::Binance;
    assert!(kind.can_read(&rows));
    let k = kind.read_candles(&rows);
    assert_eq!(k.len(), 2);
    assert_eq!(k[0].time, 1000);
    assert_eq!(value(k[0].open), 1.0);
    assert_eq!(value(k[0].high), 2.0);
    assert_eq!(value(k[0].low), 0.5);
    assert_eq!(value(k[0].close), 1.5);
    assert_eq!(value(k[0].volume), 10.0);
    // A text time, a missing price and text that is no number read as zero.
    assert_eq!(k[1].time, 0);
    assert_eq!(value(k[1].open), 0.0);
    assert_eq!(value(k[1].high), 0.0);
    assert_eq!(value(k[1].close), 4.0);
    assert_eq!(ExchangeKind::Mexc.read_candles(&rows), k);
}

#[test]
fn newest_first_rows_are_turned_around() {
    let rows = vec![
        texts(&["3000", "3", "3", "3", "3", "3"]),
        texts(&["2000", "2", "2", "2", "2", "2"]),
        texts(&["1000", "1", "1", "1", "1", "1"]),
    ];
    for kind in [ExchangeKind::Bybit, ExchangeKind::Okx, ExchangeKind::Bitget] {
        let k = kind.read_candles(&rows);
        assert_eq!(k.iter().map(|c| c.time).collect::<Vec<_>>(), vec![1000, 2000, 3000]);
        assert_eq!(value(k[0].close), 1.0);
    }
    let k = ExchangeKind::KuCoin.read_candles(&rows);
    assert_eq!(k.iter().map(|c| c.time).collect::<Vec<_>>(), vec![1000000, 2000000, 3000000]);
}

#[test]
fn column_orders() {
    // Gate: [time, volume, close, high, low, open], time in seconds.
    let gate = vec![texts(&["1700000000", "9", "2", "3", "1", "1.5"])];
    let g = ExchangeKind::Gate.read_candles(&gate);
    assert_eq!(g[0].time, 1700000000000);
    assert_eq!(value(g[0].volume), 9.0);
    assert_eq!(value(g[0].close), 2.0);
    assert_eq!(value(g[0].high), 3.0);
    assert_eq!(value(g[0].low), 1.0);
    assert_eq!(value(g[0].open), 1.5);
    // KuCoin: [time, open, close, high, low, volume].
    let kucoin = vec![texts(&["1700000000", "1.5", "2", "3", "1", "9", "18"])];
    let c = ExchangeKind::KuCoin.read_candles(&kucoin);
    assert_eq!(c[0].time, 1700000000000);
    assert_eq!(value(c[0].open), 1.5);
    assert_eq!(value(c[0].close), 2.0);
    assert_eq!(value(c[0].high), 3.0);
    assert_eq!(value(c[0].low), 1.0);
    assert_eq!(value(c[0].volume), 9.0);
    // Kraken: [time, open, high, low, close, vwap, volume, count].
    let kraken = vec![
        vec![whole_number(1700000000), text("1.5"), float(3.0), text("1"), text("2"), text("2.1"), text("9"), whole_number(5)],
        vec![float(1700000060.9), text("1"), text("1"), text("1"), Cell::Other, text("1"), text("4"), whole_number(1)],
        vec![whole_number(1), text("1")],
    ];
    let kind = ExchangeKind::Kraken;
    assert!(kind.can_read(&kraken));
    let k = kind.read_candles(&kraken);
    assert_eq!(k.len(), 2);
    assert_eq!(k[0].time, 1700000000000);
    assert_eq!(value(k[0].high), 3.0);
    assert_eq!(value(k[0].volume), 9.0);
    assert_eq!(k[1].time, 1700000060000);
    assert_eq!(value(k[1].close), 0.0);
}

#[test]
fn unreadable_rows_are_detected() {
    let huge = vec![texts(&["9223372036854776", "1", "1", "1", "1", "1"])];
    assert!(!ExchangeKind::Gate.can_read(&huge));
    assert!(!ExchangeKind::KuCoin.can_read(&huge));
    assert!(ExchangeKind::Okx.can_read(&huge));
    let text_time = vec![vec![text("1"), text("1"), text("1"), text("1"), text("1"), text("1"), text("1")]];
    assert!(!ExchangeKind::Kraken.can_read(&text_time));
    assert!(ExchangeKind::Kraken.can_read(&vec![vec![text("1"); 6]]));
}

#[test]
fn text_helpers() {
    assert!(starts_with("kline.1.BTC", "kline.1."));
    assert!(!starts_with("kline.", "kline.1."));
    assert!(ends_with("XBT/USDT", "/USDT"));
    assert!(!ends_with("USDT", "/USDT"));
    assert!(contains("a\"k\"b", "\"k\""));
    assert!(contains("abc", ""));
    assert!(!contains("ab", "abc"));
    assert_eq!(remove_all("kline.1.kline.1.X", "kline.1."), "X");
    assert_eq!(remove_all("akline.1.b", "kline.1."), "ab");
    assert_eq!(remove_all("日本kline.1.語", "kline.1."), "日本語");
    assert_eq!(remove_all("abc", ""), "abc");
}

fn text_time(t: &str) -> i64 {
    let rows = vec![vec![text(t), text("1"), text("1"), text("1"), text("1"), text("1")]];
    ExchangeKind::Okx.read_candles(&rows)[0].time
}

#[test]
fn text_times_read_as_i64_does() {
    assert_eq!(text_time("123"), 123);
    assert_eq!(text_time("+7"), 7);
    assert_eq!(text_time("-42"), -42);
    assert_eq!(text_time("-9223372036854775808"), i64::MIN);
    assert_eq!(text_time("9223372036854775807"), i64::MAX);
    assert_eq!(text_time("9223372036854775808"), 0);
    assert_eq!(text_time(""), 0);
    assert_eq!(text_time("-"), 0);
    assert_eq!(text_time("+"), 0);
    assert_eq!(text_time(" 1"), 0);
    assert_eq!(text_time("1.0"), 0);
    assert_eq!(text_time("0012"), 12);
}

#[test]
fn chunks_of_symbols() {
    let symbols: Vec<String> = (0..450).map(|i| format!("S{}", i)).collect();
    let chunks = chunk_symbols(&symbols, CHUNK_SIZE);
    assert_eq!(chunks.iter().map(|c| c.len()).collect::<Vec<_>>(), vec![200, 200, 50]);
    assert_eq!(chunks.concat(), symbols);
    assert!(chunk_symbols(&vec![], CHUNK_SIZE).is_empty());
    assert_eq!(chunk_symbols(&symbols[..200].to_vec(), CHUNK_SIZE).len(), 1);
}

#[test]
fn listener_reactions() {
    assert_eq!(react(Link::Down, StreamEvent::Connected, true), (Link::Up, StreamAction::Subscribe));
    assert_eq!(react(Link::Down, StreamEvent::Connected, false), (Link::Up, StreamAction::Listen));
    assert_eq!(
        react(Link::Down, StreamEvent::ConnectFailed, true),
        (Link::Down, StreamAction::RetryAfter(5))
    );
    assert_eq!(
        react(Link::Up, StreamEvent::SubscribeFailed, true),
        (Link::Down, StreamAction::Reconnect)
    );
    assert_eq!(react(Link::Up, StreamEvent::Text, true), (Link::Up, StreamAction::Decode));
    assert_eq!(react(Link::Up, StreamEvent::Ping, true), (Link::Up, StreamAction::Pong));
    assert_eq!(react(Link::Up, StreamEvent::OtherFrame, true), (Link::Up, StreamAction::Ignore));
    assert_eq!(react(Link::Up, StreamEvent::Closed, true), (Link::Down, StreamAction::Reconnect));
}

#[test]
fn parse_i64_reads_as_std_does() {
    let cases = [
        "0", "-0", "+0", "42", "+42", "-42", "007", "9223372036854775807",
        "-9223372036854775808", "9223372036854775808", "-9223372036854775809",
        "99999999999999999999999", "-99999999999999999999x", "", "-", "+", "+-1", "1a",
        " 1", "1 ", "1_000", "1.0", "١٢", "12345678901234567890",
    ];
    for c in cases {
        assert_eq!(parse_i64(c), c.parse::<i64>().ok(), "{:?}", c);
    }
    assert_eq!(parse_i64("-9223372036854775808"), Some(i64::MIN));
    assert_eq!(parse_i64("9223372036854775807"), Some(i64::MAX));
    assert_eq!(parse_i64("9223372036854775808"), None);
}
