use vstd::prelude::*;
use crate::types::{spec_duration_secs, Asset, Timeframe};
use std::collections::BTreeMap;
use vstd::laws_cmp::obeys_cmp;
use vstd::std_specs::btree::{increasing_seq, key_obeys_cmp_spec};
use vstd::std_specs::cmp::OrdSpec;
use vstd::std_specs::iter::IteratorSpec;

verus! {

/// One OHLC candle of a timeframe. Prices are of the caller's numeric type.
#[derive(Clone, Copy, Debug)]
pub struct Candle<P> {
    pub open_time: i64,
    pub close_time: i64,
    pub asset: Asset,
    pub timeframe: Timeframe,
    pub open: P,
    pub high: P,
    pub low: P,
    pub close: P,
    pub volume: P,
    pub trades: u64,
}

/// Absolute values below this are taken to be seconds, not milliseconds.
pub open spec fn seconds_bound() -> int {
    100_000_000_000
}

/// A history timestamp in milliseconds: values that look like seconds
/// (magnitude below 10^11) are scaled by 1000, others are kept.
pub open spec fn spec_normalize_ts(ts: i64) -> i64 {
    if -seconds_bound() < ts < seconds_bound() {
        (ts * 1000) as i64
    } else {
        ts
    }
}

/// Normalizes a history timestamp to milliseconds. (`i64::MIN` has no
/// absolute value and is left out.)
pub fn normalize_history_timestamp_ms(ts: i64) -> (ms: i64)
    requires
        ts != i64::MIN,
    ensures
        ms == spec_normalize_ts(ts),
{
    let magnitude = if ts < 0 {
        -ts
    } else {
        ts
    };
    if magnitude < 100_000_000_000 {
        ts * 1000
    } else {
        ts
    }
}

/// Quotient of a division rounded toward zero.
pub open spec fn trunc_div(a: int, b: int) -> int {
    if a >= 0 {
        a / b
    } else {
        -((-a) / b)
    }
}

/// Length of a timeframe's window in milliseconds.
pub open spec fn timeframe_ms(tf: Timeframe) -> int {
    spec_duration_secs(tf) * 1000
}

/// Open time of the candle that holds a (normalized) history timestamp:
/// the timestamp rounded toward zero to a multiple of the window length.
pub open spec fn spec_bucket_open(ts: i64, tf: Timeframe) -> int {
    trunc_div(spec_normalize_ts(ts) as int, timeframe_ms(tf)) * timeframe_ms(tf)
}

/// Open time of the candle of `timeframe` that holds the history timestamp
/// `raw_ts` (seconds or milliseconds).
pub fn candle_open_time(raw_ts: i64, timeframe: Timeframe) -> (open: i64)
    requires
        raw_ts != i64::MIN,
    ensures
        open == spec_bucket_open(raw_ts, timeframe),
{
    let ts = normalize_history_timestamp_ms(raw_ts);
    let tf_ms: i64 = (timeframe.duration_secs() * 1000) as i64;
    assert(tf_ms == timeframe_ms(timeframe));
    if ts >= 0 {
        let q = ts / tf_ms;
        assert(0 <= q * tf_ms <= ts) by (nonlinear_arith)
            requires
                q == ts / tf_ms,
                ts >= 0,
                tf_ms > 0,
        ;
        q * tf_ms
    } else {
        assert(ts > i64::MIN);
        let m = -ts;
        let q = m / tf_ms;
        assert(0 <= q * tf_ms <= m) by (nonlinear_arith)
            requires
                q == m / tf_ms,
                m >= 0,
                tf_ms > 0,
        ;
        -(q * tf_ms)
    }
}

/// Every later candle of `s` has a different open time than `s[i]`.
pub open spec fn is_last_of_its_open_time<P>(s: Seq<Candle<P>>, i: int) -> bool {
    forall|j: int| i < j < s.len() ==> #[trigger] s[j].open_time != s[i].open_time
}

/// Candles in strictly increasing order of open time.
pub open spec fn strictly_increasing<P>(r: Seq<Candle<P>>) -> bool {
    forall|a: int, b: int| 0 <= a < b < r.len() ==> r[a].open_time < r[b].open_time
}

/// Some candle of `out` opens at `t`.
pub open spec fn has_open_time<P>(out: Seq<Candle<P>>, t: i64) -> bool {
    exists|k: int| 0 <= k < out.len() && out[k].open_time == t
}

/// `c` is the last candle of `s` for its open time, found at or after `m`.
pub open spec fn is_kept_from<P>(s: Seq<Candle<P>>, m: int, c: Candle<P>) -> bool {
    exists|i: int| m <= i < s.len() && s[i] == c && is_last_of_its_open_time(s, i)
}

/// `r` is `s` with one candle per open time, the last one given for it, in
/// increasing order of open time.
pub open spec fn is_dedup_of<P>(r: Seq<Candle<P>>, s: Seq<Candle<P>>) -> bool {
    covers_suffix(r, s, 0)
}

/// `out` is the deduplication of the candles of `s` from position `m` on.
pub open spec fn covers_suffix<P>(out: Seq<Candle<P>>, s: Seq<Candle<P>>, m: int) -> bool {
    &&& strictly_increasing(out)
    &&& forall|k: int| 0 <= k < out.len() ==> is_kept_from(s, m, #[trigger] out[k])
    &&& forall|i: int| m <= i < s.len() ==> has_open_time(out, #[trigger] s[i].open_time)
}

/// The open times of a sequence of keys increase.
proof fn lemma_increasing_keys(keys: Seq<i64>)
    requires
        increasing_seq(keys),
    ensures
        forall|a: int, b: int| 0 <= a < b < keys.len() ==> keys[a] < keys[b],
{
    assert(obeys_cmp::<i64>());
    assert forall|a: int, b: int| 0 <= a < b < keys.len() implies keys[a] < keys[b] by {
        assert(keys[a].cmp_spec(&keys[b]) is Less);
    }
}

/// `i64` keys are ordered as a `BTreeMap` needs.
proof fn lemma_i64_keys_ordered()
    ensures
        key_obeys_cmp_spec::<i64>(),
{
    assert(obeys_cmp::<i64>());
}

/// Keeps one candle per open time (the last one given) and orders them by
/// open time.
pub fn dedup_candles_by_open_time<P: Copy>(candles: Vec<Candle<P>>) -> (r: Vec<Candle<P>>)
    ensures
        is_dedup_of(r@, candles@),
{
    let ghost s = candles@;
    let mut by_open: BTreeMap<i64, Candle<P>> = BTreeMap::new();
    let mut i: usize = 0;
    while i < candles.len()
        invariant
            i <= candles@.len(),
            s == candles@,
            forall|t: i64|
                #[trigger] by_open@.contains_key(t) <==> exists|j: int|
                    0 <= j < i && s[j].open_time == t,
            forall|t: i64|
                #[trigger] by_open@.contains_key(t) ==> by_open@[t].open_time == t && exists|j: int|
                    0 <= j < i && s[j] == by_open@[t] && forall|j2: int|
                        j < j2 < i ==> #[trigger] s[j2].open_time != t,
        decreases candles@.len() - i,
    {
        let c = candles[i];
        let ghost before = by_open@;
        by_open.insert(c.open_time, c);
        assert forall|t: i64| #[trigger] by_open@.contains_key(t) <==> exists|j: int|
            0 <= j < i + 1 && s[j].open_time == t by {
            if t != c.open_time && by_open@.contains_key(t) {
                assert(before.contains_key(t));
            }
            if t == c.open_time {
                assert(s[i as int].open_time == t);
            }
        }
        assert forall|t: i64| #[trigger] by_open@.contains_key(t) implies by_open@[t].open_time == t
            && exists|j: int|
            0 <= j < i + 1 && s[j] == by_open@[t] && forall|j2: int|
                j < j2 < i + 1 ==> #[trigger] s[j2].open_time != t by {
            if t == c.open_time {
                assert(s[i as int] == by_open@[t]);
            } else {
                assert(before.contains_key(t));
                let j = choose|j: int|
                    0 <= j < i && s[j] == before[t] && forall|j2: int|
                        j < j2 < i ==> #[trigger] s[j2].open_time != t;
                assert(s[j] == by_open@[t]);
            }
        }
        i = i + 1;
    }
    let ghost m = by_open@;
    proof {
        lemma_i64_keys_ordered();
    }
    let values = by_open.values();
    let ghost keys = choose|keys: Seq<i64>|
        {
            &&& increasing_seq(keys)
            &&& keys.to_set() == m.dom()
            &&& keys.no_duplicates()
            &&& IteratorSpec::remaining(&values) == keys.map(|i: int, k: i64| &m[k])
        };
    let mut out: Vec<Candle<P>> = Vec::new();
    for c in it: values
        invariant
            it.seq() == keys.map(|i: int, k: i64| &m[k]),
            out@.len() == it.index(),
            forall|k: int| 0 <= k < out@.len() ==> #[trigger] out@[k] == m[keys[k]],
        ensures
            out@.len() == keys.len(),
    {
        assert(it.seq()[it.index() as int] == &m[keys[it.index() as int]]);
        out.push(*c);
    }
    proof {
        lemma_increasing_keys(keys);
        assert forall|k: int| 0 <= k < keys.len() implies m.contains_key(#[trigger] keys[k]) by {
            assert(keys.to_set().contains(keys[k]));
        }
        assert forall|a: int, b: int| 0 <= a < b < out@.len() implies out@[a].open_time
            < out@[b].open_time by {
            assert(out@[a] == m[keys[a]] && out@[b] == m[keys[b]]);
        }
        assert forall|k: int| 0 <= k < out@.len() implies is_kept_from(s, 0, #[trigger] out@[k]) by {
            let t = keys[k];
            assert(m.contains_key(t));
            let j = choose|j: int|
                0 <= j < s.len() && s[j] == m[t] && forall|j2: int|
                    j < j2 < s.len() ==> #[trigger] s[j2].open_time != t;
            assert(is_last_of_its_open_time(s, j));
        }
        assert forall|i: int| 0 <= i < s.len() implies has_open_time(out@, #[trigger] s[i].open_time) by {
            let t = s[i].open_time;
            assert(m.contains_key(t));
            assert(keys.to_set().contains(t));
            let k = choose|k: int| 0 <= k < keys.len() && keys[k] == t;
            assert(out@[k] == m[keys[k]]);
        }
    }
    out
}

} // verus!
