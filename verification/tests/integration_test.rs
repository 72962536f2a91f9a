use rust_chart_lib::api::{combine, IndicatorSeries};
use rust_chart_lib::indicators::{
    macd_warm_up, mask_warm_up, rsi_warm_up, sma_warm_up, stoch_warm_up, MACD_SLOW, RSI_PERIOD,
    STOCH_PERIOD,
};
use rust_chart_lib::models::KlineData;
use rust_chart_lib::num::Double;
use ta::indicators::SimpleMovingAverage;
use ta::Next;

fn d(x: f64) -> Double {
    Double::from_bits(x.to_bits())
}

fn create_dummy_kline(close: f64) -> KlineData {
    KlineData {
        time: 0,
        open: d(0.0),
        high: d(0.0),
        low: d(0.0),
        close: d(close),
        volume: d(0.0),
    }
}

/// The moving average of the closes, with the readings before the first
/// full window hidden.
fn sma_series(data: &[KlineData], period: usize) -> Vec<Option<f64>> {
    let mut sma = SimpleMovingAverage::new(period).unwrap();
    let raw: Vec<Double> = data
        .iter()
        .map(|k| d(sma.next(f64::from_bits(k.close.bits))))
        .collect();
    mask_warm_up(&raw, sma_warm_up(period))
        .into_iter()
        .map(|v| v.map(|x| f64::from_bits(x.bits)))
        .collect()
}

#[test]
fn test_calculate_sma_integration() {
    let data = vec![
        create_dummy_kline(10.0),
        create_dummy_kline(20.0),
        create_dummy_kline(30.0),
        create_dummy_kline(40.0),
        create_dummy_kline(50.0),
    ];

    let result = sma_series(&data, 3);

    assert_eq!(result[0], None);
    assert_eq!(result[1], None);
    assert_eq!(result[2], Some(20.0));
    assert_eq!(result[3], Some(30.0));
    assert_eq!(result[4], Some(40.0));
}

#[test]
fn test_calculate_sma_insufficient_data() {
    let data = vec![create_dummy_kline(10.0)];
    let result = sma_series(&data, 3);
    assert_eq!(result[0], None);
}

#[test]
fn warm_up_lengths() {
    assert_eq!(sma_warm_up(20), 19);
    assert_eq!(rsi_warm_up(RSI_PERIOD), 14);
    assert_eq!(macd_warm_up(MACD_SLOW), 25);
    assert_eq!(stoch_warm_up(STOCH_PERIOD), 14);
    let raw: Vec<Double> = (0..5).map(|i| d(i as f64)).collect();
    let m = mask_warm_up(&raw, 2);
    assert_eq!(m, vec![None, None, Some(d(2.0)), Some(d(3.0)), Some(d(4.0))]);
    assert_eq!(mask_warm_up(&raw, 9), vec![None; 5]);
    assert_eq!(mask_warm_up(&raw, 0).len(), 5);
}

#[test]
fn chart_rows_join_candles_and_readings() {
    let klines: Vec<KlineData> = (0..3).map(|i| create_dummy_kline(i as f64)).collect();
    let s = |k: f64| vec![None, Some(d(k)), Some(d(k + 1.0))];
    let series = IndicatorSeries {
        sma: s(1.0),
        upper_band: s(2.0),
        lower_band: s(3.0),
        rsi: s(4.0),
        macd: s(5.0),
        macd_signal: s(6.0),
        macd_hist: s(7.0),
        stoch_k: s(8.0),
        stoch_d: s(9.0),
    };
    let rows = combine("BTCUSDT", &klines, &series);
    assert_eq!(rows.len(), 3);
    assert_eq!(rows[0].symbol, "BTCUSDT");
    assert_eq!(rows[0].sma, None);
    assert_eq!(rows[2].kline, klines[2]);
    assert_eq!(rows[2].macd_hist, Some(d(8.0)));
    assert_eq!(rows[1].stoch_d, Some(d(9.0)));
    assert_eq!(rows[1].upper_band, Some(d(2.0)));
}
