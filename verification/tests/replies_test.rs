use rust_chart_lib::exchanges::ExchangeKind;
use rust_chart_lib::json::Scalar;

fn show(s: &Scalar) -> String {
    match s {
        Scalar::Number(t) => format!("n:{}", t),
        Scalar::Text(t) => format!("t:{}", t),
        Scalar::Other => "other".to_string(),
    }
}

fn shown(rows: &[Vec<Scalar>]) -> Vec<Vec<String>> {
    rows.iter().map(|r| r.iter().map(show).collect()).collect()
}

#[test]
fn binance_listings_keep_order_and_fields() {
    let body = r#"{"timezone":"UTC","symbols":[
        {"symbol":"BTCUSDT","quoteAsset":"USDT","status":"TRADING"},
        {"symbol":"ETHBTC","quoteAsset":"BTC","status":"TRADING"},
        {"symbol":"OLDUSDT","quoteAsset":"USDT","status":"BREAK"},
        {"quoteAsset":"USDT","status":"TRADING"}
    ]}"#;
    let kind = ExchangeKind::Binance;
    let listings = kind.listings_in(body).unwrap();
    assert_eq!(listings.len(), 4);
    assert_eq!(listings[0].symbol.as_deref(), Some("BTCUSDT"));
    assert_eq!(listings[1].quote.as_deref(), Some("BTC"));
    assert_eq!(listings[2].status.as_deref(), Some("BREAK"));
    assert_eq!(listings[3].symbol, None);
    assert_eq!(kind.usdt_symbols(&listings), vec!["BTCUSDT".to_string(), String::new()]);
}

#[test]
fn listing_errors_name_the_exchange() {
    assert_eq!(
        ExchangeKind::Binance.listings_in("not json").unwrap_err(),
        "Failed to parse Binance exchange info JSON"
    );
    assert_eq!(
        ExchangeKind::Binance.listings_in(r#"{"symbols":{}}"#).unwrap_err(),
        "Invalid Binance exchange info format"
    );
    assert_eq!(ExchangeKind::Okx.listings_in("[1,").unwrap_err(), "Failed to parse JSON");
    assert_eq!(ExchangeKind::Okx.listings_in("{}").unwrap_err(), "Invalid format");
    assert_eq!(ExchangeKind::Gate.listings_in("{}").unwrap_err(), "Invalid Gate.io format");
    assert_eq!(ExchangeKind::Kraken.listings_in(r#"{"result":[]}"#).unwrap_err(), "Invalid Kraken format");
    assert_eq!(
        ExchangeKind::Bybit.listings_in(r#"{"result":{"list":null}}"#).unwrap_err(),
        "Invalid Bybit instruments format"
    );
    assert_eq!(
        ExchangeKind::KuCoin.symbols_parse_error(),
        "Failed to parse KuCoin symbols JSON"
    );
}

#[test]
fn each_exchange_reads_its_own_list() {
    let bybit = r#"{"retCode":0,"result":{"category":"spot","list":[
        {"symbol":"BTCUSDT","quoteCoin":"USDT","status":"Trading"},
        {"symbol":"ETHUSDC","quoteCoin":"USDC","status":"Trading"}]}}"#;
    let k = ExchangeKind::Bybit;
    assert_eq!(k.usdt_symbols(&k.listings_in(bybit).unwrap()), vec!["BTCUSDT".to_string()]);

    let okx = r#"{"code":"0","data":[{"instId":"BTC-USDT","quoteCcy":"USDT","state":"live"},
        {"instId":"ETH-USDT","quoteCcy":"USDT","state":"suspend"}]}"#;
    let k = ExchangeKind::Okx;
    assert_eq!(k.usdt_symbols(&k.listings_in(okx).unwrap()), vec!["BTC-USDT".to_string()]);

    let gate = r#"[{"id":"BTC_USDT","quote":"USDT","trade_status":"tradable"},
        {"id":"ETH_USDT","quote":"USDT","trade_status":"untradable"}]"#;
    let k = ExchangeKind::Gate;
    assert_eq!(k.usdt_symbols(&k.listings_in(gate).unwrap()), vec!["BTC_USDT".to_string()]);

    let kucoin = r#"{"code":"200000","data":[
        {"symbol":"BTC-USDT","quoteCurrency":"USDT","enableTrading":true},
        {"symbol":"ETH-USDT","quoteCurrency":"USDT","enableTrading":false},
        {"symbol":"SOL-USDT","quoteCurrency":"USDT","enableTrading":"true"}]}"#;
    let k = ExchangeKind::KuCoin;
    let listings = k.listings_in(kucoin).unwrap();
    assert_eq!(listings[0].trading, Some(true));
    assert_eq!(listings[2].trading, None);
    assert_eq!(listings[0].status, None);
    assert_eq!(k.usdt_symbols(&listings), vec!["BTC-USDT".to_string()]);

    let kraken = r#"{"error":[],"result":{
        "XBTUSDT":{"altname":"XBTUSDT","wsname":"XBT/USDT","quote":"USDT"},
        "XXBTZEUR":{"altname":"XBTEUR","wsname":"XBT/EUR"}}}"#;
    let k = ExchangeKind::Kraken;
    let listings = k.listings_in(kraken).unwrap();
    assert_eq!(listings.len(), 2);
    assert_eq!(listings[0].quote, None);
    assert_eq!(k.usdt_symbols(&listings), vec!["XBTUSDT".to_string()]);
}

#[test]
fn binance_candle_rows_are_cells() {
    let body = r#"[[1672531200000,"16500.5","16502.0","16500.0","16501.0","10.5",1672531259999],
        [1672531260000,"1","2","3","4","5"]]"#;
    let rows = ExchangeKind::Binance.candle_rows(body).unwrap();
    let s = shown(&rows);
    assert_eq!(s.len(), 2);
    assert_eq!(s[0][0], "n:1672531200000");
    assert_eq!(s[0][1], "t:16500.5");
    assert_eq!(s[0].len(), 7);
    assert_eq!(s[1], vec!["n:1672531260000", "t:1", "t:2", "t:3", "t:4", "t:5"]);
}

#[test]
fn list_of_lists_answers_reject_other_shapes() {
    let k = ExchangeKind::Binance;
    assert_eq!(k.candle_rows("oops").unwrap_err(), "Failed to parse Binance kline JSON");
    assert_eq!(k.candle_rows(r#"[[1],{"a":1}]"#).unwrap_err(), "Failed to parse Binance kline JSON");
    assert_eq!(k.candle_rows(r#"{"code":-1121}"#).unwrap_err(), "Failed to parse Binance kline JSON");
    assert_eq!(ExchangeKind::Gate.candle_rows("{}").unwrap_err(), "Failed to parse Gate.io kline JSON");
    assert_eq!(ExchangeKind::Mexc.candle_rows("[]").unwrap().len(), 0);
    assert_eq!(ExchangeKind::Mexc.candles_parse_error(), "Failed to parse MEXC kline JSON");
}

#[test]
fn keyed_candle_answers() {
    let bybit = r#"{"retCode":0,"result":{"symbol":"BTCUSDT","list":[["1000","1","2","0.5","1.5","10","15"]]}}"#;
    let rows = ExchangeKind::Bybit.candle_rows(bybit).unwrap();
    assert_eq!(shown(&rows)[0][0], "t:1000");
    assert_eq!(
        ExchangeKind::Bybit.candle_rows(r#"{"result":{}}"#).unwrap_err(),
        "Invalid Bybit response format: 'list' not found"
    );
    assert_eq!(
        ExchangeKind::Bitget.candle_rows(r#"{"data":null}"#).unwrap_err(),
        "Invalid Bitget response format: 'data' not found"
    );
    assert_eq!(
        ExchangeKind::Okx.candle_rows(r#"{"code":"51001"}"#).unwrap_err(),
        "Invalid response format: 'data' not found"
    );
    assert_eq!(
        ExchangeKind::KuCoin.candle_rows("{}").unwrap_err(),
        "Invalid KuCoin response format: 'data' not found"
    );
    let okx = r#"{"data":[["2000","1","1","1","1","1"],"bad",["1000","1","1","1","1","1"]]}"#;
    let rows = ExchangeKind::Okx.candle_rows(okx).unwrap();
    assert_eq!(rows.len(), 3);
    assert_eq!(rows[1].len(), 0);
}

#[test]
fn kraken_candles_come_from_the_first_list_not_named_last() {
    let k = ExchangeKind::Kraken;
    let body = r#"{"error":[],"result":{"XXBTZUSD":[[1688671200,"30306.1","30306.2","30305.7","30305.7","30306.1","3.39243896",23]],"last":1688672160}}"#;
    let rows = k.candle_rows(body).unwrap();
    assert_eq!(rows.len(), 1);
    assert_eq!(shown(&rows)[0][0], "n:1688671200");
    assert_eq!(shown(&rows)[0][6], "t:3.39243896");
    assert_eq!(
        k.candle_rows(r#"{"result":{"last":[1,2]}}"#).unwrap_err(),
        "No candle data found in Kraken response"
    );
    assert_eq!(
        k.candle_rows(r#"{"error":["EQuery:Unknown asset pair"]}"#).unwrap_err(),
        "Invalid Kraken response: 'result' not found"
    );
    assert_eq!(k.candle_rows("<html>").unwrap_err(), "Failed to parse Kraken OHLC JSON");
}
