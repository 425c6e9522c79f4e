use polybot::data_client::{crypto_event_positions, history_gives_sample, token_gives_sample, EventText};
use polybot::dataset::split_by_time_positions;

fn ev(title: &str, slug: &str, description: Option<&str>) -> EventText {
    EventText {
        title: title.to_string(),
        slug: slug.to_string(),
        description: description.map(|d| d.to_string()),
    }
}

#[test]
fn crypto_events_are_kept_in_order() {
    let events = vec![
        ev("Will Bitcoin go up?", "btc-up", None),
        ev("Election", "politics", Some("votes")),
        ev("Weather", "rain", Some("About SOLANA too")),
        ev("Sports", "final", None),
        ev("XRP daily", "x", None),
    ];
    assert_eq!(crypto_event_positions(&events), vec![0, 2, 4]);
    assert!(crypto_event_positions(&Vec::new()).is_empty());
}

#[test]
fn samples_need_a_closed_market_a_token_and_twenty_prices() {
    assert!(token_gives_sample(true, "123"));
    assert!(!token_gives_sample(false, "123"));
    assert!(!token_gives_sample(true, ""));
    assert!(history_gives_sample(20));
    assert!(!history_gives_sample(19));
}

#[test]
fn split_by_time_cuts_days_after_the_first_sample() {
    let day = 86_400_000;
    let ts = vec![1_000, 1_000 + day - 1, 1_000 + day, 500, 1_000 + 3 * day];
    assert_eq!(split_by_time_positions(&ts, 1), (vec![0, 1, 3], vec![2, 4]));
    assert_eq!(split_by_time_positions(&ts, 0), (vec![3], vec![0, 1, 2, 4]));
    assert_eq!(split_by_time_positions(&Vec::new(), 5), (vec![], vec![]));
}
