use vstd::prelude::*;

verus! {

/// Number of features the models read.
pub const NUM_FEATURES: usize = 57;

/// Names of the model features, in the order of the feature vector.
pub open spec fn spec_feature_names() -> Seq<Seq<char>> {
    seq![
        "rsi"@,
        "rsi_normalized"@,
        "macd"@,
        "macd_signal"@,
        "macd_histogram"@,
        "macd_hist_slope"@,
        "bb_position"@,
        "adx"@,
        "plus_di"@,
        "minus_di"@,
        "trend_strength"@,
        "price_velocity"@,
        "price_acceleration"@,
        "momentum_2nd_order"@,
        "stoch_rsi"@,
        "stoch_rsi_overbought"@,
        "stoch_rsi_oversold"@,
        "spread_bps"@,
        "spread_percentile"@,
        "orderbook_imbalance"@,
        "depth_top5"@,
        "liquidity_concentration"@,
        "minutes_to_close"@,
        "window_progress"@,
        "hour_of_day"@,
        "hour_sin"@,
        "hour_cos"@,
        "day_of_week"@,
        "is_weekend"@,
        "minutes_since_market_open"@,
        "market_regime"@,
        "volatility_5m"@,
        "volatility_percentile"@,
        "market_sentiment"@,
        "calibrator_confidence"@,
        "num_indicators_agreeing"@,
        "indicators_avg_win_rate"@,
        "bullish_weight"@,
        "bearish_weight"@,
        "is_btc"@,
        "is_15m"@,
        "polymarket_price"@,
        "polymarket_price_momentum"@,
        "polymarket_volume_24hr"@,
        "polymarket_liquidity"@,
        "prev_window_dir_1"@,
        "prev_window_dir_2"@,
        "prev_window_dir_3"@,
        "window_streak"@,
        "cross_tf_alignment"@,
        "token_price_window_open"@,
        "token_price_change_window"@,
        "volume_trend"@,
        "price_vs_strike_pct"@,
        "market_certainty"@,
        "window_upper_shadow"@,
        "window_lower_shadow"@,
    ]
}

/// Names of the model features, in the order of the feature vector (used to
/// report feature importance).
pub fn feature_names() -> (names: Vec<&'static str>)
    ensures
        names@.len() == NUM_FEATURES,
        names@.map_values(|s: &str| s@) == spec_feature_names(),
{
    let names = vec![
        "rsi",
        "rsi_normalized",
        "macd",
        "macd_signal",
        "macd_histogram",
        "macd_hist_slope",
        "bb_position",
        "adx",
        "plus_di",
        "minus_di",
        "trend_strength",
        "price_velocity",
        "price_acceleration",
        "momentum_2nd_order",
        "stoch_rsi",
        "stoch_rsi_overbought",
        "stoch_rsi_oversold",
        "spread_bps",
        "spread_percentile",
        "orderbook_imbalance",
        "depth_top5",
        "liquidity_concentration",
        "minutes_to_close",
        "window_progress",
        "hour_of_day",
        "hour_sin",
        "hour_cos",
        "day_of_week",
        "is_weekend",
        "minutes_since_market_open",
        "market_regime",
        "volatility_5m",
        "volatility_percentile",
        "market_sentiment",
        "calibrator_confidence",
        "num_indicators_agreeing",
        "indicators_avg_win_rate",
        "bullish_weight",
        "bearish_weight",
        "is_btc",
        "is_15m",
        "polymarket_price",
        "polymarket_price_momentum",
        "polymarket_volume_24hr",
        "polymarket_liquidity",
        "prev_window_dir_1",
        "prev_window_dir_2",
        "prev_window_dir_3",
        "window_streak",
        "cross_tf_alignment",
        "token_price_window_open",
        "token_price_change_window",
        "volume_trend",
        "price_vs_strike_pct",
        "market_certainty",
        "window_upper_shadow",
        "window_lower_shadow",
    ];
    assert(names@.map_values(|s: &str| s@) =~= spec_feature_names());
    names
}

} // verus!
