use rust_chart_lib::api::{
    find_preset, get_scanner_presets, IndicatorSeries, ScanSession, MIN_SCAN_CANDLES,
};
use rust_chart_lib::models::KlineData;
use rust_chart_lib::num::Double;
use rust_chart_lib::scanner::{get_default_presets, FilterCondition, ScanResult, ScannerPreset};

fn d(x: f64) -> Double {
    Double::from_bits(x.to_bits())
}

fn readings() -> ScanResult {
    ScanResult {
        exchange: "binance".to_string(),
        symbol: "BTCUSDT".to_string(),
        price: d(100.0),
        rsi: None,
        stoch_k: None,
        stoch_d: None,
        macd: None,
        macd_signal: None,
        sma: None,
        upper_band: None,
        lower_band: None,
        prev_macd: None,
        prev_macd_signal: None,
    }
}

#[test]
fn test_default_presets_count() {
    let presets = get_default_presets();
    assert_eq!(presets.len(), 14, "Should have 14 default presets");
}

#[test]
fn test_preset_categories() {
    let presets = get_default_presets();
    let overbought_count = presets.iter().filter(|p| p.category == "overbought").count();
    let oversold_count = presets.iter().filter(|p| p.category == "oversold").count();
    let trend_up_count = presets.iter().filter(|p| p.category == "trend_up").count();
    let trend_down_count = presets.iter().filter(|p| p.category == "trend_down").count();
    let multi_count = presets.iter().filter(|p| p.category == "multi").count();

    assert_eq!(overbought_count, 3);
    assert_eq!(oversold_count, 3);
    assert_eq!(trend_up_count, 3);
    assert_eq!(trend_down_count, 3);
    assert_eq!(multi_count, 2);
}

#[test]
fn default_preset_contents() {
    let presets = get_scanner_presets();
    assert_eq!(presets[0].id, "rsi_overbought");
    assert_eq!(presets[0].name, "RSI過熱");
    assert_eq!(presets[0].conditions, vec![FilterCondition::RsiAbove(d(75.0))]);
    assert_eq!(
        presets[13].conditions,
        vec![
            FilterCondition::RsiAbove(d(70.0)),
            FilterCondition::StochKAbove(d(80.0)),
            FilterCondition::CloseAboveUpperBand
        ]
    );
    assert_eq!(presets[12].conditions[0], FilterCondition::RsiBelow(d(30.0)));
    assert_eq!(presets[8].conditions[0], FilterCondition::RsiAbove(d(55.0)));
    assert_eq!(presets[11].conditions[0], FilterCondition::RsiBelow(d(45.0)));
    assert_eq!(presets[3].conditions[0], FilterCondition::RsiBelow(d(25.0)));
    assert_eq!(presets[4].conditions[0], FilterCondition::StochKBelow(d(20.0)));
    let ids: Vec<&str> = presets.iter().map(|p| p.id.as_str()).collect();
    for (i, a) in ids.iter().enumerate() {
        for b in &ids[i + 1..] {
            assert_ne!(a, b);
        }
    }
    assert!(presets.iter().all(|p| !p.conditions.is_empty()));
}

#[test]
fn double_comparisons_follow_ieee() {
    let values = [
        0.0,
        -0.0,
        1.0,
        -1.0,
        1.5e-300,
        -2.5e300,
        f64::MIN_POSITIVE,
        5e-324,
        -5e-324,
        f64::INFINITY,
        f64::NEG_INFINITY,
        f64::NAN,
        -f64::NAN,
        75.0,
        74.99999999999999,
    ];
    for a in values {
        for b in values {
            assert_eq!(d(a).gt(&d(b)), a > b, "{} > {}", a, b);
            assert_eq!(d(a).lt(&d(b)), a < b, "{} < {}", a, b);
        }
        assert_eq!(d(a).is_nan(), a.is_nan());
    }
}

#[test]
fn double_equality_is_ieee() {
    assert_eq!(d(0.0), d(-0.0));
    assert_ne!(d(f64::NAN), d(f64::NAN));
    assert_ne!(d(1.0), d(2.0));
    assert_eq!(FilterCondition::RsiAbove(d(0.0)), FilterCondition::RsiAbove(d(-0.0)));
    assert_eq!(
        FilterCondition::RsiAbove(d(0.0)) == FilterCondition::RsiAbove(d(-0.0)),
        0.0f64 == -0.0f64
    );
}

#[test]
fn rsi_conditions() {
    let mut r = readings();
    assert!(!r.evaluate_condition(&FilterCondition::RsiAbove(d(75.0))));
    assert!(!r.evaluate_condition(&FilterCondition::RsiBelow(d(75.0))));
    r.rsi = Some(d(80.0));
    assert!(r.evaluate_condition(&FilterCondition::RsiAbove(d(75.0))));
    assert!(!r.evaluate_condition(&FilterCondition::RsiBelow(d(75.0))));
    r.rsi = Some(d(75.0));
    assert!(!r.evaluate_condition(&FilterCondition::RsiAbove(d(75.0))));
    assert!(!r.evaluate_condition(&FilterCondition::RsiBelow(d(75.0))));
    r.rsi = Some(d(f64::NAN));
    assert!(!r.evaluate_condition(&FilterCondition::RsiAbove(d(75.0))));
    assert!(!r.evaluate_condition(&FilterCondition::RsiBelow(d(75.0))));
}

#[test]
fn stochastic_conditions() {
    let mut r = readings();
    r.stoch_k = Some(d(85.0));
    assert!(r.evaluate_condition(&FilterCondition::StochKAbove(d(80.0))));
    assert!(!r.evaluate_condition(&FilterCondition::StochKBelow(d(80.0))));
    assert!(!r.evaluate_condition(&FilterCondition::StochKAboveD));
    r.stoch_d = Some(d(90.0));
    assert!(r.evaluate_condition(&FilterCondition::StochKBelowD));
    assert!(!r.evaluate_condition(&FilterCondition::StochKAboveD));
    r.stoch_d = Some(d(10.0));
    assert!(r.evaluate_condition(&FilterCondition::StochKAboveD));
}

#[test]
fn price_conditions() {
    let mut r = readings();
    for c in [
        FilterCondition::CloseAboveSma,
        FilterCondition::CloseBelowSma,
        FilterCondition::CloseAboveUpperBand,
        FilterCondition::CloseBelowLowerBand,
    ] {
        assert!(!r.evaluate_condition(&c));
    }
    r.sma = Some(d(90.0));
    r.upper_band = Some(d(99.0));
    r.lower_band = Some(d(101.0));
    assert!(r.evaluate_condition(&FilterCondition::CloseAboveSma));
    assert!(!r.evaluate_condition(&FilterCondition::CloseBelowSma));
    assert!(r.evaluate_condition(&FilterCondition::CloseAboveUpperBand));
    assert!(r.evaluate_condition(&FilterCondition::CloseBelowLowerBand));
}

#[test]
fn macd_conditions() {
    let mut r = readings();
    r.macd = Some(d(1.0));
    r.macd_signal = Some(d(0.5));
    assert!(r.evaluate_condition(&FilterCondition::MacdAboveSignal));
    assert!(!r.evaluate_condition(&FilterCondition::MacdBelowSignal));
    // A cross needs the readings of the candle before.
    assert!(!r.evaluate_condition(&FilterCondition::MacdCrossUp));
    r.prev_macd = Some(d(0.1));
    r.prev_macd_signal = Some(d(0.2));
    assert!(r.evaluate_condition(&FilterCondition::MacdCrossUp));
    assert!(!r.evaluate_condition(&FilterCondition::MacdCrossDown));
    r.macd = Some(d(0.0));
    r.prev_macd = Some(d(0.3));
    assert!(r.evaluate_condition(&FilterCondition::MacdCrossDown));
    assert!(r.evaluate_condition(&FilterCondition::MacdBelowSignal));
}

#[test]
fn preset_needs_every_condition() {
    let presets = get_default_presets();
    let strong_up = &presets[8];
    let mut r = readings();
    r.rsi = Some(d(60.0));
    assert!(!r.matches_preset(strong_up));
    r.sma = Some(d(90.0));
    assert!(r.matches_preset(strong_up));
    r.rsi = Some(d(50.0));
    assert!(!r.matches_preset(strong_up));
    let empty = ScannerPreset {
        id: "all".to_string(),
        name: "all".to_string(),
        description: String::new(),
        category: "multi".to_string(),
        conditions: vec![],
    };
    assert!(readings().matches_preset(&empty));
}

#[test]
fn find_preset_by_id() {
    let presets = get_default_presets();
    assert_eq!(find_preset(&presets, "macd_golden_cross"), Ok(6));
    assert_eq!(
        find_preset(&presets, "nope"),
        Err("Preset 'nope' not found".to_string())
    );
}

fn klines(n: usize) -> Vec<KlineData> {
    (0..n)
        .map(|i| KlineData {
            time: i as i64,
            open: d(1.0),
            high: d(2.0),
            low: d(0.5),
            close: d(i as f64),
            volume: d(3.0),
        })
        .collect()
}

fn series(n: usize) -> IndicatorSeries {
    let s = |k: f64| (0..n).map(|i| Some(d(k + i as f64))).collect::<Vec<_>>();
    IndicatorSeries {
        sma: s(1000.0),
        upper_band: s(2000.0),
        lower_band: s(3000.0),
        rsi: s(4000.0),
        macd: s(5000.0),
        macd_signal: s(6000.0),
        macd_hist: s(7000.0),
        stoch_k: s(8000.0),
        stoch_d: s(9000.0),
    }
}

#[test]
fn scan_reads_the_newest_candles() {
    assert!(ScanResult::from_latest("binance", "BTCUSDT", &klines(29), &series(29)).is_none());
    let r = ScanResult::from_latest("binance", "BTCUSDT", &klines(MIN_SCAN_CANDLES), &series(30))
        .unwrap();
    assert_eq!(r.exchange, "binance");
    assert_eq!(r.symbol, "BTCUSDT");
    assert_eq!(r.price, d(29.0));
    assert_eq!(r.rsi, Some(d(4029.0)));
    assert_eq!(r.sma, Some(d(1029.0)));
    assert_eq!(r.upper_band, Some(d(2029.0)));
    assert_eq!(r.lower_band, Some(d(3029.0)));
    assert_eq!(r.macd, Some(d(5029.0)));
    assert_eq!(r.macd_signal, Some(d(6029.0)));
    assert_eq!(r.stoch_k, Some(d(8029.0)));
    assert_eq!(r.stoch_d, Some(d(9029.0)));
    assert_eq!(r.prev_macd, Some(d(5028.0)));
    assert_eq!(r.prev_macd_signal, Some(d(6028.0)));
}

#[test]
fn scan_session_keeps_matches_in_order() {
    let presets = get_default_presets();
    let preset = &presets[0];
    let symbols: Vec<String> = (0..150).map(|i| format!("S{}", i)).collect();
    let mut session = ScanSession::new(preset, symbols);
    assert_eq!(session.symbols.len(), 150);
    let mut seen = 0;
    while let Some(symbol) = session.next_symbol() {
        let n: usize = symbol[1..].parse().unwrap();
        let candidate = if n % 3 == 0 {
            None
        } else {
            let mut r = readings();
            r.symbol = symbol.clone();
            r.rsi = Some(d(if n % 2 == 0 { 80.0 } else { 20.0 }));
            Some(r)
        };
        session.record(candidate);
        seen += 1;
    }
    assert_eq!(seen, 150);
    let found = session.results();
    let expected: Vec<String> = (0..150)
        .filter(|n| n % 3 != 0 && n % 2 == 0)
        .map(|n| format!("S{}", n))
        .collect();
    let got: Vec<String> = found.iter().map(|r| r.symbol.clone()).collect();
    assert_eq!(got, expected);
}
