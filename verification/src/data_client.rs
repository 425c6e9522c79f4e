use vstd::prelude::*;
use crate::text::{ascii_lower, chars_of, contains_str, seq_contains, to_ascii_lowercase};
use crate::types::{Asset, Timeframe};

verus! {

/// A tag of a market event.
#[derive(Clone, Debug)]
pub struct PolymarketTag {
    pub id: String,
    pub label: String,
}

/// One point of a token's price history (`t` in seconds, `p` as sent).
#[derive(Clone, Debug)]
pub struct HistoricalPrice {
    pub t: i64,
    pub p: String,
}

/// Reply of the price-history endpoint.
#[derive(Clone, Debug)]
pub struct PriceHistoryResponse {
    pub history: Vec<HistoricalPrice>,
}

/// One historical trade of a market.
#[derive(Clone, Debug)]
pub struct HistoricalTrade {
    pub side: String,
    pub size: String,
    pub price: String,
    pub timestamp: i64,
    pub transaction_hash: Option<String>,
}

/// Endpoints of the market-data services.
#[derive(Clone, Debug)]
pub struct PolymarketDataClient {
    pub gamma_api_url: String,
    pub clob_api_url: String,
    pub data_api_url: String,
}

/// Asset named by a market question (read case-insensitively); BTC when none is.
pub open spec fn spec_question_asset(q: Seq<char>) -> Asset {
    if seq_contains(q, "bitcoin"@) || seq_contains(q, "btc"@) {
        Asset::BTC
    } else if seq_contains(q, "ethereum"@) || seq_contains(q, "eth"@) {
        Asset::ETH
    } else if seq_contains(q, "solana"@) || seq_contains(q, "sol"@) {
        Asset::SOL
    } else if seq_contains(q, "ripple"@) || seq_contains(q, "xrp"@) {
        Asset::XRP
    } else {
        Asset::BTC
    }
}

/// Timeframe named by a market question; 15 minutes when none is. An "hour"
/// counts unless the question also says "24".
pub open spec fn spec_question_timeframe(q: Seq<char>) -> Timeframe {
    if seq_contains(q, "15 min"@) || seq_contains(q, "15m"@) || seq_contains(q, "15 minute"@) {
        Timeframe::Min15
    } else if seq_contains(q, "1 hour"@) || seq_contains(q, "1h"@) || (seq_contains(q, "hour"@)
        && !seq_contains(q, "24"@)) {
        Timeframe::Hour1
    } else {
        Timeframe::Min15
    }
}

/// Direction named by a market question: "UP", "DOWN" or "UNKNOWN".
pub open spec fn spec_question_direction(q: Seq<char>) -> Seq<char> {
    if seq_contains(q, "higher"@) || seq_contains(q, "above"@) || seq_contains(q, "up"@)
        || seq_contains(q, "over"@) {
        "UP"@
    } else if seq_contains(q, "lower"@) || seq_contains(q, "below"@) || seq_contains(q, "down"@)
        || seq_contains(q, "under"@) {
        "DOWN"@
    } else {
        "UNKNOWN"@
    }
}

/// The words that mark an event as a crypto event.
pub open spec fn names_crypto(t: Seq<char>) -> bool {
    ||| seq_contains(t, "bitcoin"@)
    ||| seq_contains(t, "btc"@)
    ||| seq_contains(t, "ethereum"@)
    ||| seq_contains(t, "eth"@)
    ||| seq_contains(t, "solana"@)
    ||| seq_contains(t, "sol"@)
    ||| seq_contains(t, "ripple"@)
    ||| seq_contains(t, "xrp"@)
}

/// Text of an event searched for crypto words: title, slug and description
/// separated by spaces.
pub open spec fn event_text(title: Seq<char>, slug: Seq<char>, description: Seq<char>) -> Seq<
    char,
> {
    title + seq![' '] + slug + seq![' '] + description
}

/// The instant a market closes, in seconds since the Unix epoch, as read from
/// an RFC 3339 date (`None` when the text is not one).
pub uninterp spec fn rfc3339_unix_seconds(s: Seq<char>) -> Option<i64>;

/// Calls `chrono::DateTime::parse_from_rfc3339` and takes the parsed
/// instant's `timestamp()`. Claims that the result is a function of the text
/// (named `rfc3339_unix_seconds`), and that it lies within chrono's date
/// range (years -262144 to 262142), so its magnitude is below 10^13 seconds.
#[verifier::external_body]
fn parse_rfc3339_seconds(s: &str) -> (r: Option<i64>)
    ensures
        r == rfc3339_unix_seconds(s@),
        r matches Some(t) ==> -10_000_000_000_000 <= t <= 10_000_000_000_000,
{
    chrono::DateTime::parse_from_rfc3339(s).ok().map(|d| d.timestamp())
}

/// Length of the price history fetched before a market closes: seven days.
pub open spec fn history_window_secs() -> int {
    604_800
}

/// Window `(start, end)` of price history to fetch for a market: it ends at
/// the market's close when known, else now, and starts seven days earlier.
pub open spec fn spec_price_window(end: Option<i64>, now_secs: i64) -> (i64, i64) {
    let e = match end {
        Some(t) => t,
        None => now_secs,
    };
    ((e - history_window_secs()) as i64, e)
}

/// The price-history window given the parsed close of the market.
pub fn price_window_from_end(end: Option<i64>, now_secs: i64) -> (w: (i64, i64))
    requires
        now_secs >= i64::MIN + history_window_secs(),
        end matches Some(t) ==> t >= i64::MIN + history_window_secs(),
    ensures
        w == spec_price_window(end, now_secs),
{
    let e = match end {
        Some(t) => t,
        None => now_secs,
    };
    (e - 7 * 86_400, e)
}

/// The price-history window of a market with the given end date.
pub fn market_price_window(end_date: Option<&str>, now_secs: i64) -> (w: (i64, i64))
    requires
        now_secs >= i64::MIN + history_window_secs(),
    ensures
        w == spec_price_window(
            match end_date {
                Some(d) => rfc3339_unix_seconds(d@),
                None => None,
            },
            now_secs,
        ),
{
    let end = match end_date {
        Some(d) => parse_rfc3339_seconds(d),
        None => None,
    };
    price_window_from_end(end, now_secs)
}

/// Identifier of a trade sample: the market's condition id and the token id
/// joined by a dash.
pub fn trade_sample_id(condition_id: &str, token_id: &str) -> (id: String)
    ensures
        id@ == condition_id@ + seq!['-'] + token_id@,
{
    let mut id = condition_id.to_owned();
    id.append("-");
    proof {
        reveal_strlit("-");
        assert("-"@ =~= seq!['-']);
    }
    id.append(token_id);
    id
}

/// Whether an event (title, slug, optional description) is about one of the
/// traded crypto assets. Letters are compared without regard to ASCII case;
/// since no crypto word holds a letter that a non-ASCII character
/// lower-cases to, this is the same as comparing after Unicode lower-casing.
pub fn is_crypto_event(title: &str, slug: &str, description: Option<&str>) -> (b: bool)
    ensures
        b == names_crypto(
            ascii_lower(
                event_text(
                    title@,
                    slug@,
                    match description {
                        Some(d) => d@,
                        None => Seq::empty(),
                    },
                ),
            ),
        ),
{
    let mut text = chars_of(title);
    text.push(' ');
    let mut slug_chars = chars_of(slug);
    text.append(&mut slug_chars);
    text.push(' ');
    let mut desc_chars = match description {
        Some(d) => chars_of(d),
        None => Vec::new(),
    };
    text.append(&mut desc_chars);
    assert(text@ =~= event_text(
        title@,
        slug@,
        match description {
            Some(d) => d@,
            None => Seq::empty(),
        },
    ));
    let t = to_ascii_lowercase(&text);
    contains_str(&t, "bitcoin") || contains_str(&t, "btc") || contains_str(&t, "ethereum")
        || contains_str(&t, "eth") || contains_str(&t, "solana") || contains_str(&t, "sol")
        || contains_str(&t, "ripple") || contains_str(&t, "xrp")
}

impl PolymarketDataClient {
    /// Client for the public market-data endpoints.
    pub fn new() -> (c: Self)
        ensures
            c.gamma_api_url@ == "https://gamma-api.polymarket.com"@,
            c.clob_api_url@ == "https://clob.polymarket.com"@,
            c.data_api_url@ == "https://data-api.polymarket.com"@,
    {
        PolymarketDataClient {
            gamma_api_url: "https://gamma-api.polymarket.com".to_owned(),
            clob_api_url: "https://clob.polymarket.com".to_owned(),
            data_api_url: "https://data-api.polymarket.com".to_owned(),
        }
    }

    /// Asset, timeframe and direction named by a market question. Letters are
    /// compared without regard to ASCII case (the same as after Unicode
    /// lower-casing for the words looked for, none of which holds a letter
    /// that a non-ASCII character lower-cases to).
    pub fn parse_market_metadata(&self, question: &str) -> (r: (Asset, Timeframe, String))
        ensures
            r.0 == spec_question_asset(ascii_lower(question@)),
            r.1 == spec_question_timeframe(ascii_lower(question@)),
            r.2@ == spec_question_direction(ascii_lower(question@)),
    {
        let q = to_ascii_lowercase(&chars_of(question));
        let asset = if contains_str(&q, "bitcoin") || contains_str(&q, "btc") {
            Asset::BTC
        } else if contains_str(&q, "ethereum") || contains_str(&q, "eth") {
            Asset::ETH
        } else if contains_str(&q, "solana") || contains_str(&q, "sol") {
            Asset::SOL
        } else if contains_str(&q, "ripple") || contains_str(&q, "xrp") {
            Asset::XRP
        } else {
            Asset::BTC
        };
        let timeframe = if contains_str(&q, "15 min") || contains_str(&q, "15m") || contains_str(
            &q,
            "15 minute",
        ) {
            Timeframe::Min15
        } else if contains_str(&q, "1 hour") || contains_str(&q, "1h") || (contains_str(&q, "hour")
            && !contains_str(&q, "24")) {
            Timeframe::Hour1
        } else {
            Timeframe::Min15
        };
        let direction = if contains_str(&q, "higher") || contains_str(&q, "above") || contains_str(
            &q,
            "up",
        ) || contains_str(&q, "over") {
            "UP".to_owned()
        } else if contains_str(&q, "lower") || contains_str(&q, "below") || contains_str(&q, "down")
            || contains_str(&q, "under") {
            "DOWN".to_owned()
        } else {
            "UNKNOWN".to_owned()
        };
        (asset, timeframe, direction)
    }
}

impl Default for PolymarketDataClient {
    fn default() -> (c: Self)
        ensures
            c.gamma_api_url@ == "https://gamma-api.polymarket.com"@,
            c.clob_api_url@ == "https://clob.polymarket.com"@,
            c.data_api_url@ == "https://data-api.polymarket.com"@,
    {
        Self::new()
    }
}

/// Most batches of markets one download reads.
pub const MAX_DOWNLOAD_BATCHES: usize = 20;

/// Events asked for in one batch of a download.
pub const DOWNLOAD_BATCH_SIZE: usize = 50;

/// A download reads another batch while fewer than twenty were read, fewer
/// samples than the target are held, and the last batch read (if any) held
/// events.
pub open spec fn spec_fetch_another_batch(
    batches_read: usize,
    samples_held: usize,
    min_samples: usize,
    last_batch_empty: bool,
) -> bool {
    batches_read < MAX_DOWNLOAD_BATCHES && samples_held < min_samples && !last_batch_empty
}

/// Whether a download of historical samples reads another batch.
pub fn fetch_another_batch(
    batches_read: usize,
    samples_held: usize,
    min_samples: usize,
    last_batch_empty: bool,
) -> (b: bool)
    ensures
        b == spec_fetch_another_batch(batches_read, samples_held, min_samples, last_batch_empty),
{
    batches_read < MAX_DOWNLOAD_BATCHES && samples_held < min_samples && !last_batch_empty
}

/// The texts of an event that tell whether it is about crypto.
#[derive(Clone, Debug)]
pub struct EventText {
    pub title: String,
    pub slug: String,
    pub description: Option<String>,
}

/// The event is about one of the traded crypto assets.
pub open spec fn is_crypto_event_text(e: EventText) -> bool {
    names_crypto(
        ascii_lower(
            event_text(
                e.title@,
                e.slug@,
                match e.description {
                    Some(d) => d@,
                    None => Seq::empty(),
                },
            ),
        ),
    )
}

/// Positions of the crypto events among `events`, in their order: each
/// position holds a crypto event, the positions increase, and every crypto
/// event's position is among them. Keeping the events at these positions
/// keeps the crypto events in the order they came.
pub fn crypto_event_positions(events: &Vec<EventText>) -> (r: Vec<usize>)
    ensures
        forall|k: int|
            0 <= k < r@.len() ==> #[trigger] r@[k] < events@.len() && is_crypto_event_text(
                events@[r@[k] as int],
            ),
        forall|a: int, b: int| 0 <= a < b < r@.len() ==> r@[a] < r@[b],
        forall|i: int|
            0 <= i < events@.len() && is_crypto_event_text(#[trigger] events@[i]) ==> r@.contains(
                i as usize,
            ),
{
    let mut r: Vec<usize> = Vec::new();
    let mut i: usize = 0;
    while i < events.len()
        invariant
            i <= events@.len(),
            forall|k: int|
                0 <= k < r@.len() ==> #[trigger] r@[k] < i && is_crypto_event_text(
                    events@[r@[k] as int],
                ),
            forall|a: int, b: int| 0 <= a < b < r@.len() ==> r@[a] < r@[b],
            forall|j: int|
                0 <= j < i && is_crypto_event_text(#[trigger] events@[j]) ==> r@.contains(
                    j as usize,
                ),
        decreases events@.len() - i,
    {
        let e = &events[i];
        let description = match &e.description {
            Some(d) => Some(d.as_str()),
            None => None,
        };
        let ghost before = r@;
        if is_crypto_event(e.title.as_str(), e.slug.as_str(), description) {
            r.push(i);
            assert forall|j: int|
                0 <= j < i + 1 && is_crypto_event_text(#[trigger] events@[j]) implies r@.contains(
                j as usize,
            ) by {
                if j < i {
                    let k = choose|k: int| 0 <= k < before.len() && before[k] == j as usize;
                    assert(r@[k] == j as usize);
                } else {
                    assert(r@[r@.len() - 1] == i);
                }
            }
        }
        i = i + 1;
    }
    r
}

/// Fewest price points a token's history needs to give a trade sample.
pub const MIN_SAMPLE_PRICE_POINTS: usize = 20;

/// A token of a market can give a trade sample: the market is closed and
/// the token has an id.
pub fn token_gives_sample(market_closed: bool, token_id: &str) -> (b: bool)
    ensures
        b == (market_closed && token_id@.len() > 0),
{
    market_closed && token_id.unicode_len() > 0
}

/// A price history long enough to give a trade sample.
pub fn history_gives_sample(price_points: usize) -> (b: bool)
    ensures
        b == (price_points >= MIN_SAMPLE_PRICE_POINTS),
{
    price_points >= MIN_SAMPLE_PRICE_POINTS
}

} // verus!
