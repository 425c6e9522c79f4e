use polybot::bootstrap::{
    asset_search_keyword, history_attempt, history_query_bounds, pick_fallback_market,
    pick_up_token, HistoryInterval, MarketCandidate,
};
use polybot::data_client::fetch_another_batch;
use polybot::features::{feature_names, NUM_FEATURES};
use polybot::types::{Asset, Timeframe};

fn cand(slug: Option<&str>, question: &str, active: bool, expiry: Option<i64>) -> MarketCandidate {
    MarketCandidate {
        slug: slug.map(|s| s.to_string()),
        question: question.to_string(),
        active,
        expiry,
    }
}

#[test]
fn fallback_prefers_timeframe_then_soonest_close() {
    let cs = vec![
        cand(Some("btc-updown-15m-1"), "Bitcoin 15m", true, Some(500)),
        cand(Some("btc-updown-1h-2"), "Bitcoin Up or Down", true, Some(900)),
        cand(Some("btc-updown-1h-3"), "Bitcoin Up or Down", true, Some(700)),
        cand(Some("btc-updown-1h-4"), "Bitcoin Up or Down", false, Some(100)),
    ];
    assert_eq!(pick_fallback_market(&cs, Timeframe::Hour1), Some(2));
    assert_eq!(pick_fallback_market(&cs, Timeframe::Min15), Some(0));
}

#[test]
fn fallback_ties_and_unknown_closes() {
    let cs = vec![
        cand(None, "Bitcoin price", true, None),
        cand(None, "Bitcoin price", true, Some(i64::MAX)),
        cand(None, "Bitcoin price", true, Some(10)),
    ];
    assert_eq!(pick_fallback_market(&cs, Timeframe::Hour1), Some(2));
    let tied = vec![cand(None, "Bitcoin price", true, None), cand(None, "Other", true, None)];
    assert_eq!(pick_fallback_market(&tied, Timeframe::Hour1), Some(0));
    let inactive = vec![cand(None, "Bitcoin 15m", false, Some(1))];
    assert_eq!(pick_fallback_market(&inactive, Timeframe::Min15), None);
    assert_eq!(pick_fallback_market(&vec![], Timeframe::Min15), None);
}

#[test]
fn up_token_choice() {
    let outcomes = |v: &[&str]| v.iter().map(|s| s.to_string()).collect::<Vec<String>>();
    assert_eq!(pick_up_token(&outcomes(&["No", "Yes"])), Some(1));
    assert_eq!(pick_up_token(&outcomes(&["Down", "UP"])), Some(1));
    assert_eq!(pick_up_token(&outcomes(&["Lower", "Higher"])), Some(0));
    assert_eq!(pick_up_token(&outcomes(&[])), None);
}

#[test]
fn history_bounds_and_keywords() {
    assert_eq!(
        history_query_bounds(Timeframe::Min15, 1_700_000_000_000),
        (1_699_395_200, 1_700_000_000)
    );
    assert_eq!(
        history_query_bounds(Timeframe::Hour1, 1_700_000_000_000),
        (1_697_408_000, 1_700_000_000)
    );
    assert_eq!(history_query_bounds(Timeframe::Min15, 1_500), (-604_798, 1));
    assert_eq!(asset_search_keyword(Asset::BTC), "bitcoin");
    assert_eq!(asset_search_keyword(Asset::ETH), "ethereum");
    assert_eq!(asset_search_keyword(Asset::SOL), "solana");
    assert_eq!(asset_search_keyword(Asset::XRP), "xrp");
}

#[test]
fn feature_name_list() {
    let names = feature_names();
    assert_eq!(names.len(), NUM_FEATURES);
    assert_eq!(names[0], "rsi");
    assert_eq!(names[NUM_FEATURES - 1], "window_lower_shadow");
    let mut sorted = names.clone();
    sorted.sort();
    sorted.dedup();
    assert_eq!(sorted.len(), NUM_FEATURES);
}

#[test]
fn history_query_bounds_round_toward_zero_before_the_epoch() {
    assert_eq!(history_query_bounds(Timeframe::Min15, -1_500), (-604_801, -1));
    assert_eq!(
        history_query_bounds(Timeframe::Hour1, i64::MIN + 2_592_000_000),
        (-9_223_372_036_854_775, -9_223_372_034_262_775)
    );
}

#[test]
fn history_attempts_fall_back_in_order() {
    let now = 1_700_000_000_000;
    let first = history_attempt(0, "6h", Timeframe::Min15, now).unwrap();
    assert!(matches!(first.interval, HistoryInterval::Requested("6h")));
    assert_eq!(first.bounds, Some((1_699_395_200, 1_700_000_000)));
    let second = history_attempt(1, "6h", Timeframe::Min15, now).unwrap();
    assert!(matches!(second.interval, HistoryInterval::Requested("6h")));
    assert_eq!(second.bounds, None);
    let third = history_attempt(2, "6h", Timeframe::Min15, now).unwrap();
    assert!(matches!(third.interval, HistoryInterval::Max));
    assert_eq!(third.bounds, None);
    let fourth = history_attempt(3, "6h", Timeframe::Min15, now).unwrap();
    assert!(matches!(fourth.interval, HistoryInterval::OneDay));
    assert_eq!(fourth.bounds, None);
    assert!(history_attempt(4, "6h", Timeframe::Min15, now).is_none());
    assert!(history_attempt(usize::MAX, "6h", Timeframe::Min15, now).is_none());
}

#[test]
fn download_stops_at_twenty_batches_the_target_or_an_empty_batch() {
    assert!(fetch_another_batch(0, 0, 100, false));
    assert!(fetch_another_batch(19, 99, 100, false));
    assert!(!fetch_another_batch(20, 0, 100, false));
    assert!(!fetch_another_batch(3, 100, 100, false));
    assert!(!fetch_another_batch(3, 10, 100, true));
    assert!(!fetch_another_batch(0, 0, 0, false));
}
