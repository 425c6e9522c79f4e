use polybot::data_client::{is_crypto_event, market_price_window, trade_sample_id, PolymarketDataClient};
use polybot::markets::{
    infer_asset_from_market_text, infer_direction_from_outcome, infer_timeframe_from_time_suffix,
    looks_like_hourly_updown_market_text, looks_like_hourly_updown_time_slug,
    parse_timeframe_from_market_text,
};
use polybot::types::{Asset, Direction, Timeframe};

#[test]
fn hourly_updown_markets() {
    assert!(looks_like_hourly_updown_market_text("bitcoin-up-or-down-july-4-3pm-et"));
    assert!(looks_like_hourly_updown_market_text("ethereum up or down - july 4, 3 pm et"));
    assert!(!looks_like_hourly_updown_market_text("btc-updown-15m-1751643000"));
    assert!(!looks_like_hourly_updown_market_text("bitcoin-up-or-down-4h-3pm-et"));
    assert!(!looks_like_hourly_updown_market_text("bitcoin-up-or-down-july-4"));
    assert!(!looks_like_hourly_updown_market_text("will btc hit 100k at 3pm-et"));
}

#[test]
fn directions_of_outcomes() {
    assert_eq!(infer_direction_from_outcome(Some("Yes")), Some(Direction::Up));
    assert_eq!(infer_direction_from_outcome(Some("UP")), Some(Direction::Up));
    assert_eq!(infer_direction_from_outcome(Some("Higher")), Some(Direction::Up));
    assert_eq!(infer_direction_from_outcome(Some("No")), Some(Direction::Down));
    assert_eq!(infer_direction_from_outcome(Some("Down")), Some(Direction::Down));
    assert_eq!(infer_direction_from_outcome(Some("below")), Some(Direction::Down));
    assert_eq!(infer_direction_from_outcome(Some("maybe")), None);
    assert_eq!(infer_direction_from_outcome(None), None);
    // "up" words are looked for first.
    assert_eq!(infer_direction_from_outcome(Some("not up")), Some(Direction::Up));
}

#[test]
fn timeframes_of_market_text() {
    assert_eq!(parse_timeframe_from_market_text("btc-updown-15m-1751643000"), Some(Timeframe::Min15));
    assert_eq!(parse_timeframe_from_market_text("BTC 15 Minute"), Some(Timeframe::Min15));
    assert_eq!(parse_timeframe_from_market_text("ETH-UPDOWN-1H"), Some(Timeframe::Hour1));
    assert_eq!(
        parse_timeframe_from_market_text("Bitcoin Up or Down - July 4, 3PM ET"),
        Some(Timeframe::Hour1)
    );
    assert_eq!(
        parse_timeframe_from_market_text("will-btc-be-above-93000-at-3-00-pm-et"),
        Some(Timeframe::Hour1)
    );
    assert_eq!(
        parse_timeframe_from_market_text("btc-above-93000-at-3-30-pm"),
        Some(Timeframe::Min15)
    );
    assert_eq!(parse_timeframe_from_market_text("solana price today"), None);
}

#[test]
fn on_the_hour_slugs() {
    assert!(looks_like_hourly_updown_time_slug("will-btc-be-above-93000-at-12-00-am-et"));
    assert!(!looks_like_hourly_updown_time_slug("will-btc-be-above-93000-at-3-15-pm-et"));
    assert!(!looks_like_hourly_updown_time_slug("btc-above-93000-at-3-00-pm"));
}

#[test]
fn time_suffixes() {
    assert_eq!(infer_timeframe_from_time_suffix("x-at-3-45-pm"), Some(Timeframe::Min15));
    assert_eq!(infer_timeframe_from_time_suffix("x-at-3-15-et"), Some(Timeframe::Min15));
    assert_eq!(infer_timeframe_from_time_suffix("x-at-3-00-am"), Some(Timeframe::Hour1));
    assert_eq!(infer_timeframe_from_time_suffix("x-at-3-10-am"), None);
}

#[test]
fn assets_of_market_text() {
    assert_eq!(infer_asset_from_market_text("Bitcoin above 100k?"), Some(Asset::BTC));
    assert_eq!(infer_asset_from_market_text("ETH-UPDOWN"), Some(Asset::ETH));
    assert_eq!(infer_asset_from_market_text("Solana up"), Some(Asset::SOL));
    assert_eq!(infer_asset_from_market_text("Ripple/XRP"), Some(Asset::XRP));
    assert_eq!(infer_asset_from_market_text("Dogecoin"), None);
    // BTC is looked for first.
    assert_eq!(infer_asset_from_market_text("btc vs eth"), Some(Asset::BTC));
}

#[test]
fn case_does_not_matter() {
    for text in ["BTC-UPDOWN-15M", "Will-Btc-Be-Above-1-At-3-00-PM-ET", "Ethereum 1 Hour"] {
        let lower = text.to_ascii_lowercase();
        assert_eq!(parse_timeframe_from_market_text(text), parse_timeframe_from_market_text(&lower));
        assert_eq!(infer_asset_from_market_text(text), infer_asset_from_market_text(&lower));
    }
}

#[test]
fn market_metadata_of_questions() {
    let client = PolymarketDataClient::new();
    let (a, tf, d) = client.parse_market_metadata("Will Bitcoin be higher in 15 minutes?");
    assert_eq!((a, tf, d.as_str()), (Asset::BTC, Timeframe::Min15, "UP"));
    let (a, tf, d) = client.parse_market_metadata("Will ETH close below 3000 in 1 hour?");
    assert_eq!((a, tf, d.as_str()), (Asset::ETH, Timeframe::Hour1, "DOWN"));
    let (a, tf, d) = client.parse_market_metadata("XRP in 24 hours?");
    assert_eq!((a, tf, d.as_str()), (Asset::XRP, Timeframe::Min15, "UNKNOWN"));
    let (a, tf, _) = client.parse_market_metadata("Next hour for the dollar");
    assert_eq!((a, tf), (Asset::BTC, Timeframe::Hour1));
}

#[test]
fn client_endpoints() {
    let c = PolymarketDataClient::new();
    assert_eq!(c.gamma_api_url, "https://gamma-api.polymarket.com");
    assert_eq!(c.clob_api_url, "https://clob.polymarket.com");
    assert_eq!(c.data_api_url, "https://data-api.polymarket.com");
}

#[test]
fn crypto_events() {
    assert!(is_crypto_event("Bitcoin daily", "x", None));
    assert!(is_crypto_event("Daily", "eth-price", None));
    assert!(is_crypto_event("Daily", "x", Some("About SOLANA")));
    assert!(!is_crypto_event("Elections", "us-2024", Some("politics")));
}

#[test]
fn price_window_follows_the_end_date() {
    // 2024-01-01T00:00:00Z is 1704067200.
    assert_eq!(
        market_price_window(Some("2024-01-01T00:00:00Z"), 0),
        (1704067200 - 604_800, 1704067200)
    );
    assert_eq!(
        market_price_window(Some("2024-01-01T01:00:00+01:00"), 0),
        (1704067200 - 604_800, 1704067200)
    );
    assert_eq!(market_price_window(Some("not a date"), 2_000_000), (2_000_000 - 604_800, 2_000_000));
    assert_eq!(market_price_window(None, 1_000_000), (1_000_000 - 604_800, 1_000_000));
}

#[test]
fn sample_ids() {
    assert_eq!(trade_sample_id("0xabc", "123"), "0xabc-123");
}
