//! Decisions taken while seeding candle history from a prediction market's
//! token price history: which market to read when the configured one is
//! missing, which of its tokens, and over which period.
use vstd::prelude::*;
use crate::history::trunc_div;
use crate::markets::spec_timeframe_of_market_text;
use crate::markets::timeframe_of_text;
use crate::text::{ascii_lower, chars_of, contains_str, seq_contains, to_ascii_lowercase};
use crate::types::{Asset, Timeframe};

verus! {

/// Word used to search for markets of an asset.
pub open spec fn spec_search_keyword(asset: Asset) -> Seq<char> {
    match asset {
        Asset::BTC => "bitcoin"@,
        Asset::ETH => "ethereum"@,
        Asset::SOL => "solana"@,
        Asset::XRP => "xrp"@,
    }
}

/// Word used to search for markets of an asset.
pub fn asset_search_keyword(asset: Asset) -> (k: &'static str)
    ensures
        k@ == spec_search_keyword(asset),
{
    match asset {
        Asset::BTC => "bitcoin",
        Asset::ETH => "ethereum",
        Asset::SOL => "solana",
        Asset::XRP => "xrp",
    }
}

/// A market found by a search, as far as the choice among them goes.
#[derive(Clone, Debug)]
pub struct MarketCandidate {
    pub slug: Option<String>,
    pub question: String,
    pub active: bool,
    /// Close of the market (Unix seconds), when it could be read.
    pub expiry: Option<i64>,
}

/// Text of a candidate searched for its timeframe: its slug and its
/// lower-cased question.
pub open spec fn candidate_text(c: MarketCandidate) -> Seq<char> {
    (match c.slug {
        Some(s) => s@,
        None => Seq::empty(),
    }) + seq![' '] + ascii_lower(c.question@)
}

/// The candidate's text names the wanted timeframe.
pub open spec fn matches_timeframe(c: MarketCandidate, tf: Timeframe) -> bool {
    spec_timeframe_of_market_text(candidate_text(c)) == Some(tf)
}

/// Close used to order candidates: unknown closes come last.
pub open spec fn expiry_key(c: MarketCandidate) -> i64 {
    match c.expiry {
        Some(e) => e,
        None => i64::MAX,
    }
}

/// `a` is preferred to `b`: it names the timeframe and `b` does not, or
/// both agree on that and `a` closes sooner.
pub open spec fn preferred(a: MarketCandidate, b: MarketCandidate, tf: Timeframe) -> bool {
    ||| matches_timeframe(a, tf) && !matches_timeframe(b, tf)
    ||| matches_timeframe(a, tf) == matches_timeframe(b, tf) && expiry_key(a) < expiry_key(b)
}

/// `i` is the choice among `cs`: an active candidate to which no active one
/// is preferred, and which is preferred to every active one before it.
pub open spec fn is_fallback_choice(cs: Seq<MarketCandidate>, tf: Timeframe, i: int) -> bool {
    &&& 0 <= i < cs.len()
    &&& cs[i].active
    &&& forall|j: int| 0 <= j < cs.len() && cs[j].active ==> !preferred(#[trigger] cs[j], cs[i], tf)
    &&& forall|j: int| 0 <= j < i && cs[j].active ==> preferred(cs[i], #[trigger] cs[j], tf)
}

fn candidate_matches(c: &MarketCandidate, tf: Timeframe) -> (b: bool)
    ensures
        b == matches_timeframe(*c, tf),
{
    let mut text = match &c.slug {
        Some(s) => chars_of(s.as_str()),
        None => Vec::new(),
    };
    text.push(' ');
    let mut q = to_ascii_lowercase(&chars_of(c.question.as_str()));
    text.append(&mut q);
    assert(text@ =~= candidate_text(*c));
    timeframe_of_text(&text) == Some(tf)
}

fn candidate_expiry(c: &MarketCandidate) -> (e: i64)
    ensures
        e == expiry_key(*c),
{
    match c.expiry {
        Some(e) => e,
        None => i64::MAX,
    }
}

/// The market to read when the configured one is missing: among the active
/// candidates, those naming the wanted timeframe first, then the one that
/// closes soonest; ties go to the earlier candidate. `None` when no
/// candidate is active.
pub fn pick_fallback_market(candidates: &Vec<MarketCandidate>, timeframe: Timeframe) -> (r: Option<
    usize,
>)
    ensures
        match r {
            Some(i) => is_fallback_choice(candidates@, timeframe, i as int),
            None => forall|j: int| 0 <= j < candidates@.len() ==> !(#[trigger] candidates@[j]).active,
        },
{
    let ghost cs = candidates@;
    let mut best: Option<usize> = None;
    let mut best_match = false;
    let mut best_expiry: i64 = 0;
    let mut i: usize = 0;
    while i < candidates.len()
        invariant
            cs == candidates@,
            i <= cs.len(),
            match best {
                Some(b) => {
                    &&& b < i
                    &&& best_match == matches_timeframe(cs[b as int], timeframe)
                    &&& best_expiry == expiry_key(cs[b as int])
                    &&& cs[b as int].active
                    &&& forall|j: int|
                        0 <= j < i && cs[j].active ==> !preferred(#[trigger] cs[j], cs[b as int], timeframe)
                    &&& forall|j: int|
                        0 <= j < b && cs[j].active ==> preferred(cs[b as int], #[trigger] cs[j], timeframe)
                },
                None => forall|j: int| 0 <= j < i ==> !(#[trigger] cs[j]).active,
            },
        decreases cs.len() - i,
    {
        let c = &candidates[i];
        if c.active {
            let m = candidate_matches(c, timeframe);
            let e = candidate_expiry(c);
            let better = match best {
                None => true,
                Some(_) => (m && !best_match) || (m == best_match && e < best_expiry),
            };
            if better {
                proof {
                    if let Some(b) = best {
                        assert forall|j: int| 0 <= j < i && cs[j].active implies preferred(
                            cs[i as int],
                            #[trigger] cs[j],
                            timeframe,
                        ) by {
                            assert(!preferred(cs[j], cs[b as int], timeframe));
                        }
                    }
                }
                best = Some(i);
                best_match = m;
                best_expiry = e;
            }
        }
        i = i + 1;
    }
    best
}

/// An outcome label that reads as "up".
pub open spec fn names_up(outcome: Seq<char>) -> bool {
    seq_contains(ascii_lower(outcome), "yes"@) || seq_contains(ascii_lower(outcome), "up"@)
}

/// Picks the token that stands for "up" among the outcomes of a market.
pub fn pick_up_token(outcomes: &Vec<String>) -> (r: Option<usize>)
    ensures
        match r {
            Some(i) => {
                &&& i < outcomes@.len()
                &&& (names_up(outcomes@[i as int]@) && forall|j: int|
                    0 <= j < i ==> !names_up((#[trigger] outcomes@[j])@)) || (i == 0 && forall|j: int|
                    0 <= j < outcomes@.len() ==> !names_up((#[trigger] outcomes@[j])@))
            },
            None => outcomes@.len() == 0,
        },
{
    let mut i: usize = 0;
    while i < outcomes.len()
        invariant
            i <= outcomes@.len(),
            forall|j: int| 0 <= j < i ==> !names_up((#[trigger] outcomes@[j])@),
        decreases outcomes@.len() - i,
    {
        let o = to_ascii_lowercase(&chars_of(outcomes[i].as_str()));
        if contains_str(&o, "yes") || contains_str(&o, "up") {
            return Some(i);
        }
        i = i + 1;
    }
    if outcomes.len() > 0 {
        Some(0)
    } else {
        None
    }
}

/// How far back the history of a timeframe is read: seven days for
/// 15-minute windows, thirty for hourly ones, in milliseconds.
pub open spec fn spec_lookback_ms(tf: Timeframe) -> i64 {
    match tf {
        Timeframe::Min15 => 604_800_000,
        Timeframe::Hour1 => 2_592_000_000,
    }
}

/// Bounds `(start, end)` in Unix seconds of the history query made at
/// `now_ms` (divisions round toward zero).
pub open spec fn spec_history_query_bounds(tf: Timeframe, now_ms: i64) -> (i64, i64) {
    (trunc_div(now_ms - spec_lookback_ms(tf), 1000) as i64, trunc_div(now_ms as int, 1000) as i64)
}

/// Whole seconds of a millisecond time, rounded toward zero.
fn secs_toward_zero(ms: i64) -> (s: i64)
    ensures
        s == trunc_div(ms as int, 1000),
{
    if ms >= 0 {
        ms / 1000
    } else if ms == i64::MIN {
        -9_223_372_036_854_775
    } else {
        -((-ms) / 1000)
    }
}

/// Bounds of the history query for a timeframe, made at `now_ms`.
pub fn history_query_bounds(tf: Timeframe, now_ms: i64) -> (b: (i64, i64))
    requires
        now_ms >= i64::MIN + 2_592_000_000,
    ensures
        b == spec_history_query_bounds(tf, now_ms),
{
    let lookback: i64 = match tf {
        Timeframe::Min15 => 604_800_000,
        Timeframe::Hour1 => 2_592_000_000,
    };
    (secs_toward_zero(now_ms - lookback), secs_toward_zero(now_ms))
}

/// Interval of a price-history request: the one the caller asked for, or
/// one of the two fallbacks.
#[derive(Clone, Debug)]
pub enum HistoryInterval<I> {
    Requested(I),
    Max,
    OneDay,
}

/// One price-history request: an interval and, where given, the query
/// bounds `(start, end)` in Unix seconds.
#[derive(Clone, Debug)]
pub struct HistoryRequest<I> {
    pub interval: HistoryInterval<I>,
    pub bounds: Option<(i64, i64)>,
}

/// The request of attempt `k` (counted from 0, so made after `k` failures)
/// of the price-history fetch for `tf` at `now_ms`: the requested interval
/// with the query bounds, the same without bounds, then the `Max` interval
/// and the one-day interval without bounds. After four failures there is
/// none: the fetch fails.
pub open spec fn spec_history_attempt<I>(k: nat, interval: I, tf: Timeframe, now_ms: i64) -> Option<
    HistoryRequest<I>,
> {
    if k == 0 {
        Some(
            HistoryRequest {
                interval: HistoryInterval::Requested(interval),
                bounds: Some(spec_history_query_bounds(tf, now_ms)),
            },
        )
    } else if k == 1 {
        Some(HistoryRequest { interval: HistoryInterval::Requested(interval), bounds: None })
    } else if k == 2 {
        Some(HistoryRequest { interval: HistoryInterval::Max, bounds: None })
    } else if k == 3 {
        Some(HistoryRequest { interval: HistoryInterval::OneDay, bounds: None })
    } else {
        None
    }
}

/// The price-history request to make after `k` failed ones, none when the
/// fetch has failed for good.
pub fn history_attempt<I>(k: usize, interval: I, tf: Timeframe, now_ms: i64) -> (r: Option<
    HistoryRequest<I>,
>)
    requires
        now_ms >= i64::MIN + 2_592_000_000,
    ensures
        r == spec_history_attempt(k as nat, interval, tf, now_ms),
{
    if k == 0 {
        Some(
            HistoryRequest {
                interval: HistoryInterval::Requested(interval),
                bounds: Some(history_query_bounds(tf, now_ms)),
            },
        )
    } else if k == 1 {
        Some(HistoryRequest { interval: HistoryInterval::Requested(interval), bounds: None })
    } else if k == 2 {
        Some(HistoryRequest { interval: HistoryInterval::Max, bounds: None })
    } else if k == 3 {
        Some(HistoryRequest { interval: HistoryInterval::OneDay, bounds: None })
    } else {
        None
    }
}

} // verus!
