use polybot::filters::{
    FilterConfig, FilterContext, FilterDecision, FilterPerformanceStats, FilterReason,
    SmartFilterEngine,
};
use polybot::types::Timeframe;

/// A context that passes every check of the default configuration.
fn passing_context() -> FilterContext {
    let mut c = FilterContext::default();
    c.orderbook_depth = 10_000_000_000;
    c.spread_bps = 50_000_000;
    c.volatility_5m = 5_000;
    c.minutes_to_close = 10_000_000;
    c.window_progress = 300_000;
    c.btc_eth_correlation = 800_000;
    c
}

#[test]
fn test_liquidity_filter() {
    let config = FilterConfig::default();
    let engine = SmartFilterEngine::new(config);
    let mut context = FilterContext::default();
    context.orderbook_depth = 1_000_000_000; // 1000 USDC: too thin
    let decision = engine.evaluate(&context);
    assert!(matches!(decision, FilterDecision::Reject(FilterReason::InsufficientLiquidity)));
}

#[test]
fn test_spread_filter() {
    let config = FilterConfig::default();
    let engine = SmartFilterEngine::new(config);
    let mut context = FilterContext::default();
    context.timeframe = Timeframe::Min15;
    context.spread_bps = 150_000_000; // 150 bps: too wide
    context.orderbook_depth = 10_000_000_000;
    let decision = engine.evaluate(&context);
    assert!(matches!(decision, FilterDecision::Reject(FilterReason::ExcessiveSpread)));
}

#[test]
fn test_optimal_hours_learning() {
    let config = FilterConfig::default();
    let mut engine = SmartFilterEngine::new(config);
    let trades = vec![
        (14, true),
        (14, true),
        (14, false),
        (14, true),
        (14, true),
        (15, false),
        (15, false),
        (15, true),
        (15, false),
    ];
    engine.learn_optimal_hours(&trades);
    assert!(engine.optimal_hours.contains(&14));
    assert!(!engine.optimal_hours.contains(&15));
}

#[test]
fn every_check_can_refuse() {
    let engine = SmartFilterEngine::new(FilterConfig::default());
    assert_eq!(engine.evaluate(&passing_context()), FilterDecision::Allow);

    let mut c = passing_context();
    c.timeframe = Timeframe::Hour1;
    c.spread_bps = 150_000_000;
    assert_eq!(engine.evaluate(&c), FilterDecision::Allow);
    c.spread_bps = 150_000_001;
    assert_eq!(engine.evaluate(&c), FilterDecision::Reject(FilterReason::ExcessiveSpread));

    let mut c = passing_context();
    c.volatility_5m = 20_001;
    assert_eq!(engine.evaluate(&c), FilterDecision::Reject(FilterReason::HighVolatility));
    c.volatility_5m = 999;
    assert_eq!(engine.evaluate(&c), FilterDecision::Reject(FilterReason::LowVolatility));

    let mut c = passing_context();
    c.minutes_to_close = 2_999_999;
    assert_eq!(engine.evaluate(&c), FilterDecision::Reject(FilterReason::InsufficientTime));

    let mut c = passing_context();
    c.window_progress = 700_001;
    assert_eq!(engine.evaluate(&c), FilterDecision::Reject(FilterReason::LateEntry));

    let mut c = passing_context();
    c.btc_eth_correlation = 599_999;
    assert_eq!(engine.evaluate(&c), FilterDecision::Reject(FilterReason::UnstableCorrelation));
    c.btc_eth_correlation = 950_001;
    assert_eq!(engine.evaluate(&c), FilterDecision::Reject(FilterReason::UnstableCorrelation));

    let mut c = passing_context();
    c.is_macro_event_near = true;
    assert_eq!(engine.evaluate(&c), FilterDecision::Reject(FilterReason::MacroEvent));
}

#[test]
fn first_failing_check_decides() {
    let engine = SmartFilterEngine::new(FilterConfig::default());
    let mut c = passing_context();
    c.orderbook_depth = 0;
    c.spread_bps = 1_000_000_000;
    c.is_macro_event_near = true;
    assert_eq!(engine.evaluate(&c), FilterDecision::Reject(FilterReason::InsufficientLiquidity));
    c.orderbook_depth = 10_000_000_000;
    assert_eq!(engine.evaluate(&c), FilterDecision::Reject(FilterReason::ExcessiveSpread));
}

#[test]
fn learnt_hours_restrict_entries_when_enabled() {
    let mut config = FilterConfig::default();
    config.optimal_hours_only = true;
    let mut engine = SmartFilterEngine::new(config);
    let mut c = passing_context();
    c.hour = 9;
    // No hour learnt yet: every hour is allowed.
    assert_eq!(engine.evaluate(&c), FilterDecision::Allow);
    engine.learn_optimal_hours(&[(14, true), (14, true), (14, true), (14, true), (14, false)]);
    assert_eq!(engine.optimal_hours, vec![14]);
    assert_eq!(engine.evaluate(&c), FilterDecision::Reject(FilterReason::SuboptimalHour));
    c.hour = 14;
    assert_eq!(engine.evaluate(&c), FilterDecision::Allow);
}

#[test]
fn optimal_hours_need_five_trades_and_more_than_55_percent() {
    let mut engine = SmartFilterEngine::new(FilterConfig::default());
    // Hour 3: 4 wins of 4 (too few); hour 7: 11 of 20 = 55% (not above);
    // hour 9: 12 of 20 = 60%; hour 1: 3 of 5 = 60%.
    let mut trades: Vec<(u8, bool)> = vec![(3, true); 4];
    for i in 0..20 {
        trades.push((7, i < 11));
        trades.push((9, i < 12));
    }
    trades.extend_from_slice(&[(1, true), (1, false), (1, true), (1, false), (1, true)]);
    engine.learn_optimal_hours(&trades);
    assert_eq!(engine.optimal_hours, vec![1, 9]);
}

#[test]
fn update_stats_counts_each_outcome() {
    let mut engine = SmartFilterEngine::new(FilterConfig::default());
    engine.update_stats("spread", true, true, true);
    engine.update_stats("spread", true, false, false);
    engine.update_stats("spread", false, true, true);
    engine.update_stats("volatility", false, true, true);
    assert_eq!(engine.stats.len(), 2);
    let (name, s) = &engine.stats[0];
    assert_eq!(name, "spread");
    assert_eq!(s.times_applied, 2);
    assert_eq!((s.allowed, s.rejected), (1, 1));
    assert_eq!((s.wins_allowed, s.losses_allowed), (1, 0));
    assert_eq!((s.wins_rejected, s.losses_rejected), (0, 1));
    let (name, s) = &engine.stats[1];
    assert_eq!(name, "volatility");
    assert_eq!(*s, FilterPerformanceStats::default());
}

#[test]
fn effectiveness_compares_win_rates() {
    let mut s = FilterPerformanceStats::default();
    // No data on either side: one half against one half.
    assert!(!s.is_effective());
    s.wins_allowed = 3;
    s.losses_allowed = 1;
    assert!(s.is_effective());
    s.wins_rejected = 3;
    s.losses_rejected = 1;
    assert!(!s.is_effective());
    s.losses_rejected = 2;
    assert!(s.is_effective());
}

#[test]
fn auto_optimize_relaxes_ineffective_filters() {
    let mut engine = SmartFilterEngine::new(FilterConfig::default());
    for _ in 0..20 {
        // Refused trades always win: the filter is not effective.
        engine.update_stats("spread", true, true, false);
        engine.update_stats("correlation", true, true, false);
        // Allowed trades always win: effective.
        engine.update_stats("volatility", true, true, true);
    }
    engine.auto_optimize();
    assert_eq!(engine.adaptive_thresholds.spread_multiplier, 1_100_000);
    assert_eq!(engine.adaptive_thresholds.volatility_multiplier, 1_000_000);
    assert_eq!(engine.adaptive_thresholds.correlation_range_expansion, 50_000);
    engine.auto_optimize();
    assert_eq!(engine.adaptive_thresholds.spread_multiplier, 1_210_000);
    assert_eq!(engine.adaptive_thresholds.correlation_range_expansion, 100_000);
}

#[test]
fn auto_optimize_needs_twenty_applications() {
    let mut engine = SmartFilterEngine::new(FilterConfig::default());
    for _ in 0..19 {
        engine.update_stats("spread", true, true, false);
    }
    engine.auto_optimize();
    assert_eq!(engine.adaptive_thresholds.spread_multiplier, 1_000_000);
}

#[test]
fn relaxed_thresholds_keep_allowed_entries() {
    let mut engine = SmartFilterEngine::new(FilterConfig::default());
    let mut c = passing_context();
    c.spread_bps = 105_000_000;
    c.btc_eth_correlation = 580_000;
    assert_eq!(engine.evaluate(&c), FilterDecision::Reject(FilterReason::ExcessiveSpread));
    let allowed = passing_context();
    assert_eq!(engine.evaluate(&allowed), FilterDecision::Allow);
    for _ in 0..20 {
        engine.update_stats("spread", true, true, false);
        engine.update_stats("correlation", true, true, false);
    }
    engine.auto_optimize();
    assert_eq!(engine.evaluate(&allowed), FilterDecision::Allow);
    assert_eq!(engine.evaluate(&c), FilterDecision::Allow);
}

#[test]
fn reason_labels() {
    assert_eq!(FilterReason::InsufficientLiquidity.label(), "insufficient_liquidity");
    assert_eq!(FilterReason::ExcessiveSpread.label(), "excessive_spread");
    assert_eq!(FilterReason::HighVolatility.label(), "high_volatility");
    assert_eq!(FilterReason::LowVolatility.label(), "low_volatility");
    assert_eq!(FilterReason::SuboptimalHour.label(), "suboptimal_hour");
    assert_eq!(FilterReason::UnstableCorrelation.label(), "unstable_correlation");
    assert_eq!(FilterReason::LateEntry.label(), "late_entry");
    assert_eq!(FilterReason::InsufficientTime.label(), "insufficient_time");
    assert_eq!(FilterReason::MacroEvent.label(), "macro_event");
    assert_eq!(FilterReason::MarketClosed.label(), "market_closed");
    assert_eq!(FilterReason::Custom("news".to_string()).label(), "news");
    assert_eq!(FilterReason::Custom("a".to_string()), FilterReason::Custom("a".to_string()));
    assert_ne!(FilterReason::Custom("a".to_string()), FilterReason::Custom("b".to_string()));
    assert_ne!(FilterReason::LateEntry, FilterReason::MacroEvent);
}
