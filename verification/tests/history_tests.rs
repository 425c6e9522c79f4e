use polybot::history::{candle_open_time, dedup_candles_by_open_time, normalize_history_timestamp_ms, Candle};
use polybot::types::{Asset, Timeframe};

fn candle(open_time: i64, close: f64) -> Candle<f64> {
    Candle {
        open_time,
        close_time: open_time + 899_999,
        asset: Asset::BTC,
        timeframe: Timeframe::Min15,
        open: close,
        high: close,
        low: close,
        close,
        volume: 0.0,
        trades: 1,
    }
}

#[test]
fn timestamps_in_seconds_become_milliseconds() {
    assert_eq!(normalize_history_timestamp_ms(1_700_000_000), 1_700_000_000_000);
    assert_eq!(normalize_history_timestamp_ms(1_700_000_000_000), 1_700_000_000_000);
    assert_eq!(normalize_history_timestamp_ms(99_999_999_999), 99_999_999_999_000);
    assert_eq!(normalize_history_timestamp_ms(100_000_000_000), 100_000_000_000);
    assert_eq!(normalize_history_timestamp_ms(-5), -5_000);
    assert_eq!(normalize_history_timestamp_ms(0), 0);
}

#[test]
fn candle_windows() {
    // 1_700_000_123 s = 1_700_000_123_000 ms; 15-minute windows of 900_000 ms.
    assert_eq!(candle_open_time(1_700_000_123, Timeframe::Min15), 1_700_000_100_000);
    assert_eq!(candle_open_time(1_700_000_123_456, Timeframe::Hour1), 1_699_999_200_000);
    assert_eq!(candle_open_time(900_000_000_000, Timeframe::Min15), 900_000_000_000);
    // Negative timestamps round toward zero.
    assert_eq!(candle_open_time(-1, Timeframe::Min15), 0);
    assert_eq!(candle_open_time(-1_000, Timeframe::Min15), -900_000);
}

#[test]
fn dedup_keeps_last_candle_per_open_time_in_order() {
    let out = dedup_candles_by_open_time(vec![
        candle(3_000, 1.0),
        candle(1_000, 2.0),
        candle(3_000, 3.0),
        candle(2_000, 4.0),
        candle(1_000, 5.0),
    ]);
    let got: Vec<(i64, f64)> = out.iter().map(|c| (c.open_time, c.close)).collect();
    assert_eq!(got, vec![(1_000, 5.0), (2_000, 4.0), (3_000, 3.0)]);
    assert!(dedup_candles_by_open_time::<f64>(vec![]).is_empty());
}
