use polybot::strategy::{initial_strategy_settings, ActiveStrategy, StrategyVersion, TradeResult};
use polybot::types::{Asset, Timeframe};

#[derive(Default)]
struct IndicatorEngine {
    trades: usize,
    results: Vec<TradeResult>,
    predictions: Vec<(i64, bool)>,
}

#[derive(Default)]
struct LearningEngine {
    trades: usize,
    records: Vec<(bool, i64, i64)>,
}

type Strategy = ActiveStrategy<IndicatorEngine, LearningEngine>;

#[test]
fn trades_reach_the_running_engine() {
    let mut s: Strategy = ActiveStrategy::V2(IndicatorEngine::default());
    s.record_trade_with_indicators_for_market(
        Asset::BTC,
        Timeframe::Min15,
        &["rsi".to_string()],
        TradeResult::Loss,
        |e, _, _, _, r| {
            e.trades += 1;
            e.results.push(r);
        },
        |e, _, _, _, w, c, edge| {
            e.trades += 1;
            e.records.push((w, c, edge));
        },
    );
    assert_eq!(s.calibrator_total_trades(|e| e.trades, |e| e.trades), 1);
    assert_eq!(s.version(), StrategyVersion::V2);

    let mut s: Strategy = ActiveStrategy::V3(LearningEngine::default());
    s.record_trade_with_indicators_for_market(
        Asset::ETH,
        Timeframe::Hour1,
        &[],
        TradeResult::Win,
        |e, _, _, _, _| e.trades += 1,
        |e, _, _, _, w, c, edge| {
            e.trades += 1;
            e.records.push((w, c, edge));
        },
    );
    match &s {
        ActiveStrategy::V3(e) => assert_eq!(e.records, vec![(true, 600_000, 50_000)]),
        _ => panic!("engine changed"),
    }
    assert!(s.is_calibrated(|e| e.trades >= 1, |e| e.trades >= 1));
}

#[test]
fn prediction_outcomes_only_reach_the_indicator_engine() {
    let mut s: Strategy = ActiveStrategy::V2(IndicatorEngine::default());
    s.record_prediction_outcome_for_market(Asset::SOL, Timeframe::Min15, 700_000, true, |e, _, _, p, w| {
        e.predictions.push((p, w))
    });
    match &s {
        ActiveStrategy::V2(e) => assert_eq!(e.predictions, vec![(700_000, true)]),
        _ => panic!("engine changed"),
    }
    let mut s: Strategy = ActiveStrategy::V3(LearningEngine::default());
    s.record_prediction_outcome_for_market(Asset::SOL, Timeframe::Min15, 700_000, true, |e, _, _, p, w| {
        e.predictions.push((p, w))
    });
    match &s {
        ActiveStrategy::V3(e) => assert_eq!(e.trades, 0),
        _ => panic!("engine changed"),
    }
}

#[test]
fn state_signals_and_reasons_come_from_the_running_engine() {
    let mut s: Strategy = ActiveStrategy::V3(LearningEngine { trades: 4, records: vec![] });
    let state = s.export_calibrator_state_v2(|e| e.trades * 10, |e| e.trades * 100);
    assert_eq!(state, 400);
    s.import_calibrator_state_v2(7usize, |e, n| e.trades = n + 1, |e, n| e.trades = n);
    assert_eq!(s.calibrator_total_trades(|e| e.trades, |e| e.trades), 7);
    let signal = s.process(&3u8, |_, f| Some(*f as u32), |_, f| Some(*f as u32 + 100));
    assert_eq!(signal, Some(103));
    let reason = s.last_filter_reason(|_| None, |_| Some("late_entry".to_string()));
    assert_eq!(reason.as_deref(), Some("late_entry"));
}

#[test]
fn initial_settings() {
    assert_eq!(initial_strategy_settings(true, 2_000_000), (StrategyVersion::V3, 2_000_000));
    assert_eq!(initial_strategy_settings(false, 2_000_000), (StrategyVersion::V2, 990_000));
    assert_eq!(initial_strategy_settings(false, 0), (StrategyVersion::V2, 10_000));
    assert_eq!(initial_strategy_settings(false, 600_000), (StrategyVersion::V2, 600_000));
}
