use vstd::prelude::*;
use crate::text::{
    ascii_lower, chars_of, contains_str, seq_contains, seq_starts_with, starts_with_str,
    to_ascii_lowercase,
};
use crate::types::{Asset, Direction, Timeframe};

verus! {

// ---------------------------------------------------------------------------
// Specifications
// ---------------------------------------------------------------------------

/// The text names a BTC/ETH "up or down" market.
pub open spec fn names_updown_market(t: Seq<char>) -> bool {
    ||| seq_contains(t, "bitcoin-up-or-down-"@)
    ||| seq_contains(t, "ethereum-up-or-down-"@)
    ||| seq_contains(t, "bitcoin up or down"@)
    ||| seq_contains(t, "ethereum up or down"@)
    ||| seq_contains(t, "up-or-down"@)
}

/// The text names a 15-minute, 5-minute or 4-hour window.
pub open spec fn names_non_hourly_window(t: Seq<char>) -> bool {
    ||| seq_contains(t, "15m"@)
    ||| seq_contains(t, "updown-15m"@)
    ||| seq_contains(t, "5m"@)
    ||| seq_contains(t, "updown-5m"@)
    ||| seq_contains(t, "4h"@)
    ||| seq_contains(t, "updown-4h"@)
}

/// The text carries an "am/pm ET" clock time.
pub open spec fn names_et_clock_time(t: Seq<char>) -> bool {
    ||| seq_contains(t, "am-et"@)
    ||| seq_contains(t, "pm-et"@)
    ||| seq_contains(t, "am et"@)
    ||| seq_contains(t, "pm et"@)
}

/// An hourly "up or down" market: an up/down market, with no other window
/// length named, that resolves at an ET clock time.
pub open spec fn spec_looks_like_hourly_updown_market_text(t: Seq<char>) -> bool {
    names_updown_market(t) && !names_non_hourly_window(t) && names_et_clock_time(t)
}

/// Words of an outcome label that mean "up".
pub open spec fn names_up_outcome(t: Seq<char>) -> bool {
    ||| seq_contains(t, "yes"@)
    ||| seq_contains(t, "up"@)
    ||| seq_contains(t, "higher"@)
    ||| seq_contains(t, "above"@)
    ||| seq_contains(t, "true"@)
}

/// Words of an outcome label that mean "down".
pub open spec fn names_down_outcome(t: Seq<char>) -> bool {
    ||| seq_contains(t, "no"@)
    ||| seq_contains(t, "down"@)
    ||| seq_contains(t, "lower"@)
    ||| seq_contains(t, "below"@)
    ||| seq_contains(t, "false"@)
}

/// Direction named by an outcome label, case-insensitively; "up" words win.
pub open spec fn spec_direction_of_outcome(outcome: Option<Seq<char>>) -> Option<Direction> {
    match outcome {
        None => None,
        Some(o) => {
            let t = ascii_lower(o);
            if names_up_outcome(t) {
                Some(Direction::Up)
            } else if names_down_outcome(t) {
                Some(Direction::Down)
            } else {
                None
            }
        },
    }
}

/// The text names a 15-minute window.
pub open spec fn names_min15(t: Seq<char>) -> bool {
    ||| seq_contains(t, "15m"@)
    ||| seq_contains(t, "min15"@)
    ||| seq_contains(t, "m15"@)
    ||| seq_contains(t, "15 min"@)
    ||| seq_contains(t, "15-min"@)
    ||| seq_contains(t, "15min"@)
    ||| seq_contains(t, "15-minute"@)
    ||| seq_contains(t, "15 minute"@)
    ||| seq_contains(t, "updown-15m"@)
}

/// The text names a one-hour window explicitly.
pub open spec fn names_hour1(t: Seq<char>) -> bool {
    ||| seq_contains(t, "1h"@)
    ||| seq_contains(t, "hour1"@)
    ||| seq_contains(t, "h1"@)
    ||| seq_contains(t, "1 hour"@)
    ||| seq_contains(t, "60m"@)
    ||| seq_contains(t, "60 min"@)
    ||| seq_contains(t, "60-minute"@)
    ||| seq_contains(t, "updown-1h"@)
}

/// A "will X be above Y at H-00" slug: a binary market resolving on the hour.
pub open spec fn spec_looks_like_hourly_updown_time_slug(t: Seq<char>) -> bool {
    let binary = seq_starts_with(t, "will-"@) || seq_contains(t, "will-btc"@) || seq_contains(
        t,
        "will-eth"@,
    );
    binary && {
        ||| seq_contains(t, "-0-00-"@)
        ||| seq_contains(t, "-1-00-"@)
        ||| seq_contains(t, "-2-00-"@)
        ||| seq_contains(t, "-3-00-"@)
        ||| seq_contains(t, "-4-00-"@)
        ||| seq_contains(t, "-5-00-"@)
        ||| seq_contains(t, "-6-00-"@)
        ||| seq_contains(t, "-7-00-"@)
        ||| seq_contains(t, "-8-00-"@)
        ||| seq_contains(t, "-9-00-"@)
        ||| seq_contains(t, "-10-00-"@)
        ||| seq_contains(t, "-11-00-"@)
        ||| seq_contains(t, "-12-00-"@)
    }
}

/// A clock-time suffix with a quarter-hour minute value.
pub open spec fn names_quarter_hour_suffix(t: Seq<char>) -> bool {
    ||| seq_contains(t, "-15-pm"@)
    ||| seq_contains(t, "-15-am"@)
    ||| seq_contains(t, "-30-pm"@)
    ||| seq_contains(t, "-30-am"@)
    ||| seq_contains(t, "-45-pm"@)
    ||| seq_contains(t, "-45-am"@)
    ||| seq_contains(t, "-15-et"@)
    ||| seq_contains(t, "-30-et"@)
    ||| seq_contains(t, "-45-et"@)
}

/// A clock-time suffix on the hour.
pub open spec fn names_on_the_hour_suffix(t: Seq<char>) -> bool {
    ||| seq_contains(t, "-00-pm"@)
    ||| seq_contains(t, "-00-am"@)
    ||| seq_contains(t, "-00-et"@)
}

/// Timeframe given by the minute value of a clock-time suffix.
pub open spec fn spec_timeframe_from_time_suffix(t: Seq<char>) -> Option<Timeframe> {
    if names_quarter_hour_suffix(t) {
        Some(Timeframe::Min15)
    } else if names_on_the_hour_suffix(t) {
        Some(Timeframe::Hour1)
    } else {
        None
    }
}

/// Timeframe named by a market's text (read case-insensitively): 15-minute
/// names first, then one-hour names and hourly market shapes, then the
/// clock-time suffix.
pub open spec fn spec_timeframe_of_market_text(raw: Seq<char>) -> Option<Timeframe> {
    let t = ascii_lower(raw);
    if names_min15(t) {
        Some(Timeframe::Min15)
    } else if names_hour1(t) || spec_looks_like_hourly_updown_market_text(t)
        || spec_looks_like_hourly_updown_time_slug(t) {
        Some(Timeframe::Hour1)
    } else {
        spec_timeframe_from_time_suffix(t)
    }
}

/// Asset named by a market's text (read case-insensitively), BTC first.
pub open spec fn spec_asset_of_market_text(raw: Seq<char>) -> Option<Asset> {
    let t = ascii_lower(raw);
    if seq_contains(t, "btc"@) || seq_contains(t, "bitcoin"@) {
        Some(Asset::BTC)
    } else if seq_contains(t, "eth"@) || seq_contains(t, "ethereum"@) {
        Some(Asset::ETH)
    } else if seq_contains(t, "sol"@) || seq_contains(t, "solana"@) {
        Some(Asset::SOL)
    } else if seq_contains(t, "xrp"@) || seq_contains(t, "ripple"@) {
        Some(Asset::XRP)
    } else {
        None
    }
}

// ---------------------------------------------------------------------------
// Implementations
// ---------------------------------------------------------------------------

/// Whether `text` names an hourly BTC/ETH up-or-down market.
pub fn looks_like_hourly_updown_market_text(text: &str) -> (b: bool)
    ensures
        b == spec_looks_like_hourly_updown_market_text(text@),
{
    let t = chars_of(text);
    looks_like_hourly_updown_chars(&t)
}

fn looks_like_hourly_updown_chars(t: &Vec<char>) -> (b: bool)
    ensures
        b == spec_looks_like_hourly_updown_market_text(t@),
{
    let is_updown = contains_str(t, "bitcoin-up-or-down-") || contains_str(
        t,
        "ethereum-up-or-down-",
    ) || contains_str(t, "bitcoin up or down") || contains_str(t, "ethereum up or down")
        || contains_str(t, "up-or-down");
    if !is_updown {
        return false;
    }
    if contains_str(t, "15m") || contains_str(t, "updown-15m") || contains_str(t, "5m")
        || contains_str(t, "updown-5m") || contains_str(t, "4h") || contains_str(t, "updown-4h") {
        return false;
    }
    contains_str(t, "am-et") || contains_str(t, "pm-et") || contains_str(t, "am et")
        || contains_str(t, "pm et")
}

/// Direction named by an outcome label such as "Yes", "Up" or "Lower".
pub fn infer_direction_from_outcome(outcome: Option<&str>) -> (d: Option<Direction>)
    ensures
        d == spec_direction_of_outcome(
            match outcome {
                Some(o) => Some(o@),
                None => None,
            },
        ),
{
    let raw = match outcome {
        Some(o) => o,
        None => return None,
    };
    let t = to_ascii_lowercase(&chars_of(raw));
    if contains_str(&t, "yes") || contains_str(&t, "up") || contains_str(&t, "higher")
        || contains_str(&t, "above") || contains_str(&t, "true") {
        return Some(Direction::Up);
    }
    if contains_str(&t, "no") || contains_str(&t, "down") || contains_str(&t, "lower")
        || contains_str(&t, "below") || contains_str(&t, "false") {
        return Some(Direction::Down);
    }
    None
}

/// Timeframe named by a market slug or question, if any.
pub fn parse_timeframe_from_market_text(raw: &str) -> (tf: Option<Timeframe>)
    ensures
        tf == spec_timeframe_of_market_text(raw@),
{
    timeframe_of_text(&chars_of(raw))
}

/// Timeframe named by a market text given as characters.
pub fn timeframe_of_text(raw: &Vec<char>) -> (tf: Option<Timeframe>)
    ensures
        tf == spec_timeframe_of_market_text(raw@),
{
    let t = to_ascii_lowercase(raw);
    if contains_str(&t, "15m") || contains_str(&t, "min15") || contains_str(&t, "m15")
        || contains_str(&t, "15 min") || contains_str(&t, "15-min") || contains_str(&t, "15min")
        || contains_str(&t, "15-minute") || contains_str(&t, "15 minute") || contains_str(
        &t,
        "updown-15m",
    ) {
        return Some(Timeframe::Min15);
    }
    if contains_str(&t, "1h") || contains_str(&t, "hour1") || contains_str(&t, "h1")
        || contains_str(&t, "1 hour") || contains_str(&t, "60m") || contains_str(&t, "60 min")
        || contains_str(&t, "60-minute") || contains_str(&t, "updown-1h")
        || looks_like_hourly_updown_chars(&t) || time_slug_chars(&t) {
        return Some(Timeframe::Hour1);
    }
    time_suffix_chars(&t)
}

/// Whether `text` is a "will X be above Y at H-00" slug (a market resolving
/// on the hour).
pub fn looks_like_hourly_updown_time_slug(text: &str) -> (b: bool)
    ensures
        b == spec_looks_like_hourly_updown_time_slug(text@),
{
    time_slug_chars(&chars_of(text))
}

fn time_slug_chars(t: &Vec<char>) -> (b: bool)
    ensures
        b == spec_looks_like_hourly_updown_time_slug(t@),
{
    if !starts_with_str(t, "will-") && !contains_str(t, "will-btc") && !contains_str(
        t,
        "will-eth",
    ) {
        return false;
    }
    contains_str(t, "-0-00-") || contains_str(t, "-1-00-") || contains_str(t, "-2-00-")
        || contains_str(t, "-3-00-") || contains_str(t, "-4-00-") || contains_str(t, "-5-00-")
        || contains_str(t, "-6-00-") || contains_str(t, "-7-00-") || contains_str(t, "-8-00-")
        || contains_str(t, "-9-00-") || contains_str(t, "-10-00-") || contains_str(t, "-11-00-")
        || contains_str(t, "-12-00-")
}

/// Timeframe given by a "-HH-MM-" clock-time suffix: quarter-hour minutes
/// mean a 15-minute window, "-00-" an hourly one.
pub fn infer_timeframe_from_time_suffix(text: &str) -> (tf: Option<Timeframe>)
    ensures
        tf == spec_timeframe_from_time_suffix(text@),
{
    time_suffix_chars(&chars_of(text))
}

fn time_suffix_chars(t: &Vec<char>) -> (tf: Option<Timeframe>)
    ensures
        tf == spec_timeframe_from_time_suffix(t@),
{
    if contains_str(t, "-15-pm") || contains_str(t, "-15-am") || contains_str(t, "-30-pm")
        || contains_str(t, "-30-am") || contains_str(t, "-45-pm") || contains_str(t, "-45-am")
        || contains_str(t, "-15-et") || contains_str(t, "-30-et") || contains_str(t, "-45-et") {
        return Some(Timeframe::Min15);
    }
    if contains_str(t, "-00-pm") || contains_str(t, "-00-am") || contains_str(t, "-00-et") {
        return Some(Timeframe::Hour1);
    }
    None
}

/// Asset named by a market slug or question, if any.
pub fn infer_asset_from_market_text(raw: &str) -> (a: Option<Asset>)
    ensures
        a == spec_asset_of_market_text(raw@),
{
    let t = to_ascii_lowercase(&chars_of(raw));
    if contains_str(&t, "btc") || contains_str(&t, "bitcoin") {
        return Some(Asset::BTC);
    }
    if contains_str(&t, "eth") || contains_str(&t, "ethereum") {
        return Some(Asset::ETH);
    }
    if contains_str(&t, "sol") || contains_str(&t, "solana") {
        return Some(Asset::SOL);
    }
    if contains_str(&t, "xrp") || contains_str(&t, "ripple") {
        return Some(Asset::XRP);
    }
    None
}

} // verus!
