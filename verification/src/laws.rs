//! Properties of the library that span several functions or all inputs.
use vstd::prelude::*;
use crate::config::{spec_model_type_of, SCALE};
use crate::filters::{
    bumped, can_bump, relaxes, empty_stats, grown, max_correlation, min_correlation, spec_check_correlation,
    spec_check_liquidity, spec_check_macro_events, spec_check_spread, spec_check_timing,
    spec_check_volatility, spec_evaluate, spec_optimized_thresholds, widened, AdaptiveThresholds,
    FilterConfig, FilterContext, FilterDecision, FilterPerformanceStats, FilterReason,
    spec_is_effective,
};
use crate::data_client::{spec_question_asset, spec_question_direction, spec_question_timeframe};
use crate::startup::{normalized_mode, spec_reset_plan, HardResetOptions, ResetConfig};
use crate::history::{spec_bucket_open, spec_normalize_ts, timeframe_ms};
use crate::price_files::{
    days_before, hours_used, in_time_order, lemma_rows_of_files_in_window, lemma_sort_by_time,
    sort_by_time, spec_price_line, spec_price_scan_bounds, spec_rows_of_files,
};
use crate::state_files::spec_restored_counters;
use crate::markets::{spec_asset_of_market_text, spec_direction_of_outcome, spec_timeframe_of_market_text};
use crate::text::{ascii_lower, ascii_lower_char, seq_contains};
use crate::types::{Asset, Direction, Timeframe};

verus! {

proof fn lemma_ascii_lower_idempotent(s: Seq<char>)
    ensures
        ascii_lower(ascii_lower(s)) == ascii_lower(s),
{
    assert forall|i: int| 0 <= i < s.len() implies #[trigger] ascii_lower_char(ascii_lower_char(s[i]))
        == ascii_lower_char(s[i]) by {
        let c = s[i];
        if 'A' <= c && c <= 'Z' {
            let l = ((c as u32) + 32) as char;
            assert(l as u32 == (c as u32) + 32);
        }
    }
    assert(ascii_lower(ascii_lower(s)) =~= ascii_lower(s));
}

/// Model-family words are read without regard to (ASCII) case: a word and
/// its lower-cased form name the same family.
pub proof fn law_model_type_ignores_case(word: Seq<char>)
    ensures
        spec_model_type_of(ascii_lower(word)) == spec_model_type_of(word),
{
    lemma_ascii_lower_idempotent(word);
}

/// Market texts are read without regard to (ASCII) case: a text and its
/// lower-cased form name the same timeframe and the same asset.
pub proof fn law_market_text_ignores_case(text: Seq<char>)
    ensures
        spec_timeframe_of_market_text(ascii_lower(text)) == spec_timeframe_of_market_text(text),
        spec_asset_of_market_text(ascii_lower(text)) == spec_asset_of_market_text(text),
        spec_direction_of_outcome(Some(ascii_lower(text))) == spec_direction_of_outcome(Some(text)),
{
    lemma_ascii_lower_idempotent(text);
}

/// The filters allow an entry exactly when none of the six checks refuses it.
pub proof fn law_allow_iff_every_check_passes(
    cfg: FilterConfig,
    th: AdaptiveThresholds,
    optimal_hours: Seq<u8>,
    ctx: FilterContext,
)
    ensures
        (spec_evaluate(cfg, th, optimal_hours, ctx) matches FilterDecision::Allow) <==> {
            &&& spec_check_liquidity(cfg, ctx) is None
            &&& spec_check_spread(cfg, th, ctx) is None
            &&& spec_check_volatility(cfg, th, ctx) is None
            &&& spec_check_timing(cfg, optimal_hours, ctx) is None
            &&& spec_check_correlation(cfg, th, ctx) is None
            &&& spec_check_macro_events(ctx) is None
        },
{
}

/// Relaxing the thresholds never refuses an entry that was allowed: with
/// non-negative limits and multipliers, larger multipliers and a wider
/// correlation band keep every allowed entry allowed.
pub proof fn law_looser_thresholds_keep_allowed_entries(
    cfg: FilterConfig,
    th: AdaptiveThresholds,
    looser: AdaptiveThresholds,
    optimal_hours: Seq<u8>,
    ctx: FilterContext,
)
    requires
        spec_evaluate(cfg, th, optimal_hours, ctx) matches FilterDecision::Allow,
        cfg.max_spread_bps_15m >= 0,
        cfg.max_spread_bps_1h >= 0,
        cfg.max_volatility_5m >= 0,
        th.spread_multiplier <= looser.spread_multiplier,
        th.volatility_multiplier <= looser.volatility_multiplier,
        th.correlation_range_expansion <= looser.correlation_range_expansion,
    ensures
        spec_evaluate(cfg, looser, optimal_hours, ctx) matches FilterDecision::Allow,
{
    let ms = match ctx.timeframe {
        Timeframe::Min15 => cfg.max_spread_bps_15m,
        Timeframe::Hour1 => cfg.max_spread_bps_1h,
    };
    let a = th.spread_multiplier;
    let b = looser.spread_multiplier;
    assert(ms * a <= ms * b) by (nonlinear_arith)
        requires
            ms >= 0,
            a <= b,
    ;
    let mv = cfg.max_volatility_5m;
    let c = th.volatility_multiplier;
    let d = looser.volatility_multiplier;
    assert(mv * c <= mv * d) by (nonlinear_arith)
        requires
            mv >= 0,
            c <= d,
    ;
    assert(min_correlation(cfg, looser) <= min_correlation(cfg, th));
    assert(max_correlation(cfg, looser) >= max_correlation(cfg, th));
}

/// One round of optimization only loosens the thresholds: multipliers that
/// are not negative do not shrink, and the correlation band does not narrow.
pub proof fn law_optimization_only_loosens(
    stats: Seq<(String, FilterPerformanceStats)>,
    th: AdaptiveThresholds,
)
    requires
        th.spread_multiplier >= 0,
        th.volatility_multiplier >= 0,
    ensures
        th.spread_multiplier <= spec_optimized_thresholds(stats, th).spread_multiplier,
        th.volatility_multiplier <= spec_optimized_thresholds(stats, th).volatility_multiplier,
        th.correlation_range_expansion <= spec_optimized_thresholds(
            stats,
            th,
        ).correlation_range_expansion,
        spec_optimized_thresholds(stats, th).spread_multiplier >= 0,
        spec_optimized_thresholds(stats, th).volatility_multiplier >= 0,
{
    assert(grown(th.spread_multiplier) >= th.spread_multiplier);
    assert(grown(th.volatility_multiplier) >= th.volatility_multiplier);
    assert(widened(th.correlation_range_expansion) >= th.correlation_range_expansion);
}

/// So an entry the filters allow stays allowed after the thresholds are
/// optimized (limits and multipliers not negative).
pub proof fn law_optimization_keeps_allowed_entries(
    cfg: FilterConfig,
    stats: Seq<(String, FilterPerformanceStats)>,
    th: AdaptiveThresholds,
    optimal_hours: Seq<u8>,
    ctx: FilterContext,
)
    requires
        spec_evaluate(cfg, th, optimal_hours, ctx) matches FilterDecision::Allow,
        cfg.max_spread_bps_15m >= 0,
        cfg.max_spread_bps_1h >= 0,
        cfg.max_volatility_5m >= 0,
        th.spread_multiplier >= 0,
        th.volatility_multiplier >= 0,
    ensures
        spec_evaluate(cfg, spec_optimized_thresholds(stats, th), optimal_hours, ctx) matches FilterDecision::Allow,
{
    law_optimization_only_loosens(stats, th);
    law_looser_thresholds_keep_allowed_entries(
        cfg,
        th,
        spec_optimized_thresholds(stats, th),
        optimal_hours,
        ctx,
    );
}

/// The counters of a filter agree: every application was either allowed or
/// refused, and every allowed (refused) trade a win or a loss.
pub open spec fn stats_consistent(s: FilterPerformanceStats) -> bool {
    &&& s.times_applied == s.allowed + s.rejected
    &&& s.allowed == s.wins_allowed + s.losses_allowed
    &&& s.rejected == s.wins_rejected + s.losses_rejected
}

/// A new filter's counters agree, and recording a trade keeps them agreeing.
pub proof fn law_recording_keeps_counters_consistent(
    st: FilterPerformanceStats,
    applied: bool,
    was_win: bool,
    allowed: bool,
)
    requires
        stats_consistent(st),
        can_bump(st, applied, was_win, allowed),
    ensures
        stats_consistent(empty_stats()),
        stats_consistent(bumped(st, applied, was_win, allowed)),
{
}

/// A candle holds the timestamps it is built from: the normalized timestamp
/// lies in the window of the candle's open time (rounding toward zero, so
/// the window extends forward from a non-negative open time and backward
/// from a negative one), and the open time is a whole number of windows.
pub proof fn law_candle_window_holds_timestamp(ts: i64, tf: Timeframe)
    requires
        ts != i64::MIN,
    ensures
        spec_bucket_open(ts, tf) % timeframe_ms(tf) == 0,
        spec_normalize_ts(ts) >= 0 ==> spec_bucket_open(ts, tf) <= spec_normalize_ts(ts)
            < spec_bucket_open(ts, tf) + timeframe_ms(tf),
        spec_normalize_ts(ts) < 0 ==> spec_bucket_open(ts, tf) - timeframe_ms(tf) < spec_normalize_ts(
            ts,
        ) <= spec_bucket_open(ts, tf),
{
    let n = spec_normalize_ts(ts) as int;
    let m = timeframe_ms(tf);
    assert(m > 0);
    if n >= 0 {
        let q = n / m;
        assert(q * m <= n < q * m + m) by (nonlinear_arith)
            requires
                q == n / m,
                n >= 0,
                m > 0,
        ;
        assert((q * m) % m == 0) by (nonlinear_arith)
            requires
                m > 0,
        ;
        assert(spec_bucket_open(ts, tf) == q * m);
    } else {
        let q = (-n) / m;
        assert(q * m <= -n < q * m + m) by (nonlinear_arith)
            requires
                q == (-n) / m,
                -n >= 0,
                m > 0,
        ;
        assert((-q) * m == -(q * m)) by (nonlinear_arith);
        assert(spec_bucket_open(ts, tf) == (-q) * m);
        assert(((-q) * m) % m == 0) by (nonlinear_arith)
            requires
                m > 0,
        ;
    }
}

/// Restored prediction counters are only given for a positive total, and
/// neither the correct nor the incorrect count exceeds it.
pub proof fn law_restored_counters_within_total(
    total_trades: Option<u64>,
    predictions_correct: Option<u64>,
    wins: Option<u64>,
    predictions_incorrect: Option<u64>,
    losses: Option<u64>,
)
    ensures
        spec_restored_counters(total_trades, predictions_correct, wins, predictions_incorrect, losses)
            matches Some((t, c, i)) ==> t > 0 && c <= t && i <= t,
{
}

/// The daily price files read for a look-back reach back past the start of
/// its window: the earliest day read begins no later than the window does.
pub proof fn law_price_scan_reaches_window_start(now_ms: i64, lookback_hours: i64)
    requires
        hours_used(lookback_hours) * 3_600_000 <= i64::MAX,
        now_ms - hours_used(lookback_hours) * 3_600_000 >= i64::MIN,
    ensures
        days_before(now_ms, spec_price_scan_bounds(now_ms, lookback_hours).1 as int)
            <= spec_price_scan_bounds(now_ms, lookback_hours).0,
{
    let h = hours_used(lookback_hours);
    let days = (h + 23) / 24 + 2;
    assert(days * 86_400_000 >= h * 3_600_000) by (nonlinear_arith)
        requires
            h >= 1,
            days == (h + 23) / 24 + 2,
    ;
}

/// The asset of a price line is matched without regard to ASCII case: an
/// asset label and its lower-cased form read the same lines.
pub proof fn law_price_line_ignores_label_case(line: Seq<char>, label: Seq<char>, start_ts: i64)
    ensures
        spec_price_line(line, ascii_lower(label), start_ts) == spec_price_line(line, label, start_ts),
{
    lemma_ascii_lower_idempotent(label);
}

/// The local price rows come in time order, every one inside the look-back
/// window, and they are exactly the rows the files give, reordered.
pub proof fn law_local_price_rows_ordered_in_window(
    files: Seq<String>,
    label: Seq<char>,
    start_ts: i64,
)
    ensures
        in_time_order(sort_by_time(spec_rows_of_files(files, label, start_ts))),
        sort_by_time(spec_rows_of_files(files, label, start_ts)).to_multiset()
            == spec_rows_of_files(files, label, start_ts).to_multiset(),
        forall|i: int|
            0 <= i < sort_by_time(spec_rows_of_files(files, label, start_ts)).len()
                ==> #[trigger] sort_by_time(spec_rows_of_files(files, label, start_ts))[i].0
                >= start_ts,
{
    broadcast use vstd::seq_lib::to_multiset_contains;

    let rows = spec_rows_of_files(files, label, start_ts);
    let sorted = sort_by_time(rows);
    lemma_sort_by_time(rows);
    lemma_rows_of_files_in_window(files, label, start_ts);
    assert forall|i: int| 0 <= i < sorted.len() implies #[trigger] sorted[i].0 >= start_ts by {
        assert(sorted.contains(sorted[i]));
        assert(sorted.to_multiset().count(sorted[i]) > 0);
        assert(rows.to_multiset().count(sorted[i]) > 0);
        assert(rows.contains(sorted[i]));
        let k = choose|k: int| 0 <= k < rows.len() && rows[k] == sorted[i];
        assert(rows[k].0 >= start_ts);
    }
}

/// The volatility check refuses an entry as too volatile exactly when its
/// five-minute volatility exceeds the configured maximum scaled by the
/// adaptive volatility multiplier (both in millionths); it lets the entry
/// through exactly when the volatility is within that scaled limit and not
/// below the minimum. So after a relaxation a volatility above the configured
/// maximum but within the scaled one passes.
pub proof fn law_volatility_limit_follows_multiplier(
    cfg: FilterConfig,
    th: AdaptiveThresholds,
    ctx: FilterContext,
)
    ensures
        (spec_check_volatility(cfg, th, ctx) == Some(FilterReason::HighVolatility)) <==> ctx.volatility_5m
            * SCALE > cfg.max_volatility_5m * th.volatility_multiplier,
        spec_check_volatility(cfg, th, ctx) is None <==> (ctx.volatility_5m * SCALE
            <= cfg.max_volatility_5m * th.volatility_multiplier && ctx.volatility_5m
            >= cfg.min_volatility_5m),
        (spec_evaluate(cfg, th, Seq::empty(), ctx) == FilterDecision::Reject(
            FilterReason::HighVolatility,
        )) ==> ctx.volatility_5m * SCALE > cfg.max_volatility_5m * th.volatility_multiplier,
        spec_check_liquidity(cfg, ctx) is None && spec_check_spread(cfg, th, ctx) is None
            && ctx.volatility_5m * SCALE > cfg.max_volatility_5m * th.volatility_multiplier ==> (
        spec_evaluate(cfg, th, Seq::empty(), ctx) == FilterDecision::Reject(
            FilterReason::HighVolatility,
        )),
{
}

/// A side with no decided trade counts as winning half the time: with no
/// refused trade decided, a filter is effective exactly when more than half
/// of its allowed trades won; with no allowed trade decided, exactly when
/// fewer than half of its refused trades won; with both sides decided, when
/// the allowed side's win rate is the higher one.
pub proof fn law_undecided_side_wins_half(s: FilterPerformanceStats)
    ensures
        s.wins_rejected == 0 && s.losses_rejected == 0 ==> (spec_is_effective(s) <==> 2
            * s.wins_allowed > s.wins_allowed + s.losses_allowed),
        s.wins_allowed == 0 && s.losses_allowed == 0 ==> (spec_is_effective(s) <==> 2
            * s.wins_rejected < s.wins_rejected + s.losses_rejected),
        s.wins_allowed + s.losses_allowed > 0 && s.wins_rejected + s.losses_rejected > 0 ==> (
        spec_is_effective(s) <==> s.wins_allowed * (s.wins_rejected + s.losses_rejected)
            > s.wins_rejected * (s.wins_allowed + s.losses_allowed)),
{
}

/// The text, lower-cased in ASCII, holds `word`.
pub open spec fn mentions(text: Seq<char>, word: Seq<char>) -> bool {
    seq_contains(ascii_lower(text), word)
}

/// The asset a market's text names: BTC if it mentions "btc" or "bitcoin";
/// else ETH for "eth" or "ethereum"; else SOL for "sol" or "solana"; else
/// XRP for "xrp" or "ripple"; none if it mentions none of these.
pub proof fn law_market_text_asset_words(text: Seq<char>)
    ensures
        mentions(text, "btc"@) || mentions(text, "bitcoin"@) ==> spec_asset_of_market_text(text)
            == Some(Asset::BTC),
        !(mentions(text, "btc"@) || mentions(text, "bitcoin"@)) && (mentions(text, "eth"@)
            || mentions(text, "ethereum"@)) ==> spec_asset_of_market_text(text) == Some(Asset::ETH),
        !(mentions(text, "btc"@) || mentions(text, "bitcoin"@)) && !(mentions(text, "eth"@)
            || mentions(text, "ethereum"@)) && (mentions(text, "sol"@) || mentions(
            text,
            "solana"@,
        )) ==> spec_asset_of_market_text(text) == Some(Asset::SOL),
        !(mentions(text, "btc"@) || mentions(text, "bitcoin"@)) && !(mentions(text, "eth"@)
            || mentions(text, "ethereum"@)) && !(mentions(text, "sol"@) || mentions(
            text,
            "solana"@,
        )) && (mentions(text, "xrp"@) || mentions(text, "ripple"@)) ==> spec_asset_of_market_text(
            text,
        ) == Some(Asset::XRP),
        spec_asset_of_market_text(text) is None <==> !mentions(text, "btc"@) && !mentions(
            text,
            "bitcoin"@,
        ) && !mentions(text, "eth"@) && !mentions(text, "ethereum"@) && !mentions(text, "sol"@)
            && !mentions(text, "solana"@) && !mentions(text, "xrp"@) && !mentions(text, "ripple"@),
{
}

/// The asset a market question names: BTC for "bitcoin" or "btc"; else ETH
/// for "ethereum" or "eth"; else SOL for "solana" or "sol"; else XRP for
/// "ripple" or "xrp"; BTC by default, which is given only when the question
/// names BTC or none of these words.
pub proof fn law_question_asset_words(question: Seq<char>)
    ensures
        mentions(question, "bitcoin"@) || mentions(question, "btc"@) ==> spec_question_asset(
            ascii_lower(question),
        ) == Asset::BTC,
        !(mentions(question, "bitcoin"@) || mentions(question, "btc"@)) && (mentions(
            question,
            "ethereum"@,
        ) || mentions(question, "eth"@)) ==> spec_question_asset(ascii_lower(question))
            == Asset::ETH,
        !(mentions(question, "bitcoin"@) || mentions(question, "btc"@)) && !(mentions(
            question,
            "ethereum"@,
        ) || mentions(question, "eth"@)) && (mentions(question, "solana"@) || mentions(
            question,
            "sol"@,
        )) ==> spec_question_asset(ascii_lower(question)) == Asset::SOL,
        !(mentions(question, "bitcoin"@) || mentions(question, "btc"@)) && !(mentions(
            question,
            "ethereum"@,
        ) || mentions(question, "eth"@)) && !(mentions(question, "solana"@) || mentions(
            question,
            "sol"@,
        )) && (mentions(question, "ripple"@) || mentions(question, "xrp"@)) ==> spec_question_asset(
            ascii_lower(question),
        ) == Asset::XRP,
        spec_question_asset(ascii_lower(question)) == Asset::BTC ==> mentions(question, "bitcoin"@)
            || mentions(question, "btc"@) || (!mentions(question, "ethereum"@) && !mentions(
            question,
            "eth"@,
        ) && !mentions(question, "solana"@) && !mentions(question, "sol"@) && !mentions(
            question,
            "ripple"@,
        ) && !mentions(question, "xrp"@)),
{
}

/// A planned hard reset skips the backup exactly when the command line
/// (`--no-backup`) or the configuration asks for it, and deletes what the
/// configuration says; without a requested mode no reset is planned.
pub proof fn law_reset_plan_backup_and_deletions(
    requested: Option<Seq<char>>,
    reset: ResetConfig,
    cli_no_backup: bool,
)
    ensures
        requested is None ==> spec_reset_plan(requested, reset, cli_no_backup) == Some(
            None::<HardResetOptions>,
        ),
        spec_reset_plan(requested, reset, cli_no_backup) matches Some(Some(o)) ==> {
            &&& cli_no_backup ==> o.no_backup
            &&& reset.no_backup ==> o.no_backup
            &&& o.no_backup ==> cli_no_backup || reset.no_backup
            &&& o.delete_prices == reset.delete_prices
            &&& o.delete_learning_state == reset.delete_learning_state
            &&& o.delete_paper_state == reset.delete_paper_state
        },
{
}

/// Each entry filter compares the context with its limit: too little order
/// book depth, a spread above the timeframe's limit scaled by the spread
/// multiplier, too little time left or too late in the window, an hour
/// outside the learnt ones (when trading is restricted to them and some are
/// known), a BTC/ETH correlation outside the configured band widened by the
/// expansion (kept within 0 and 1), or a macro event nearby.
pub proof fn law_checks_follow_their_limits(
    cfg: FilterConfig,
    th: AdaptiveThresholds,
    optimal_hours: Seq<u8>,
    ctx: FilterContext,
)
    ensures
        spec_check_liquidity(cfg, ctx) is Some <==> ctx.orderbook_depth < cfg.min_depth_usdc,
        spec_check_liquidity(cfg, ctx) is Some ==> spec_check_liquidity(cfg, ctx) == Some(
            FilterReason::InsufficientLiquidity,
        ),
        ctx.timeframe == Timeframe::Min15 ==> (spec_check_spread(cfg, th, ctx) is Some <==> ctx.spread_bps
            * SCALE > cfg.max_spread_bps_15m * th.spread_multiplier),
        ctx.timeframe == Timeframe::Hour1 ==> (spec_check_spread(cfg, th, ctx) is Some <==> ctx.spread_bps
            * SCALE > cfg.max_spread_bps_1h * th.spread_multiplier),
        spec_check_spread(cfg, th, ctx) is Some ==> spec_check_spread(cfg, th, ctx) == Some(
            FilterReason::ExcessiveSpread,
        ),
        ctx.minutes_to_close < cfg.min_time_to_close_minutes ==> spec_check_timing(
            cfg,
            optimal_hours,
            ctx,
        ) == Some(FilterReason::InsufficientTime),
        ctx.minutes_to_close >= cfg.min_time_to_close_minutes && ctx.window_progress
            > cfg.max_window_progress ==> spec_check_timing(cfg, optimal_hours, ctx) == Some(
            FilterReason::LateEntry,
        ),
        spec_check_timing(cfg, optimal_hours, ctx) is None <==> (ctx.minutes_to_close
            >= cfg.min_time_to_close_minutes && ctx.window_progress <= cfg.max_window_progress && (
        !cfg.optimal_hours_only || optimal_hours.len() == 0 || optimal_hours.contains(ctx.hour))),
        spec_check_correlation(cfg, th, ctx) is None <==> {
            &&& ctx.btc_eth_correlation >= 0
            &&& ctx.btc_eth_correlation >= cfg.min_btc_eth_correlation - th.correlation_range_expansion
            &&& ctx.btc_eth_correlation <= SCALE
            &&& ctx.btc_eth_correlation <= cfg.max_btc_eth_correlation + th.correlation_range_expansion
        },
        spec_check_correlation(cfg, th, ctx) is Some ==> spec_check_correlation(cfg, th, ctx) == Some(
            FilterReason::UnstableCorrelation,
        ),
        spec_check_macro_events(ctx) is Some <==> ctx.is_macro_event_near,
{
}

/// The filters report the first check that refuses, in the order liquidity,
/// spread, volatility, timing, correlation, macro events.
pub proof fn law_first_refusing_check_decides(
    cfg: FilterConfig,
    th: AdaptiveThresholds,
    optimal_hours: Seq<u8>,
    ctx: FilterContext,
)
    ensures
        spec_check_liquidity(cfg, ctx) matches Some(r) ==> spec_evaluate(cfg, th, optimal_hours, ctx)
            == FilterDecision::Reject(r),
        spec_check_liquidity(cfg, ctx) is None ==> (spec_check_spread(cfg, th, ctx) matches Some(r)
            ==> spec_evaluate(cfg, th, optimal_hours, ctx) == FilterDecision::Reject(r)),
        spec_check_liquidity(cfg, ctx) is None && spec_check_spread(cfg, th, ctx) is None ==> (
        spec_check_volatility(cfg, th, ctx) matches Some(r) ==> spec_evaluate(
            cfg,
            th,
            optimal_hours,
            ctx,
        ) == FilterDecision::Reject(r)),
        spec_check_liquidity(cfg, ctx) is None && spec_check_spread(cfg, th, ctx) is None
            && spec_check_volatility(cfg, th, ctx) is None ==> (spec_check_timing(
            cfg,
            optimal_hours,
            ctx,
        ) matches Some(r) ==> spec_evaluate(cfg, th, optimal_hours, ctx) == FilterDecision::Reject(
            r,
        )),
        spec_check_liquidity(cfg, ctx) is None && spec_check_spread(cfg, th, ctx) is None
            && spec_check_volatility(cfg, th, ctx) is None && spec_check_timing(
            cfg,
            optimal_hours,
            ctx,
        ) is None ==> (spec_check_correlation(cfg, th, ctx) matches Some(r) ==> spec_evaluate(
            cfg,
            th,
            optimal_hours,
            ctx,
        ) == FilterDecision::Reject(r)),
        spec_check_liquidity(cfg, ctx) is None && spec_check_spread(cfg, th, ctx) is None
            && spec_check_volatility(cfg, th, ctx) is None && spec_check_timing(
            cfg,
            optimal_hours,
            ctx,
        ) is None && spec_check_correlation(cfg, th, ctx) is None ==> (spec_check_macro_events(ctx)
            matches Some(r) ==> spec_evaluate(cfg, th, optimal_hours, ctx) == FilterDecision::Reject(
            r,
        )),
{
}

/// Some filter named `name` was applied at least twenty times and its
/// allowed trades did not win more often than its refused ones.
pub open spec fn filter_underperforms(
    s: Seq<(String, FilterPerformanceStats)>,
    name: Seq<char>,
) -> bool {
    exists|i: int|
        0 <= i < s.len() && #[trigger] s[i].0@ == name && s[i].1.times_applied >= 20
            && !spec_is_effective(s[i].1)
}

/// One round of optimization grows the spread and volatility multipliers by
/// a tenth (rounded down, for multipliers that are not negative and do not
/// overflow) when their filter underperforms, and widens the correlation
/// band by 0.05 when the correlation filter does; a threshold whose filter
/// does not underperform is left as it was.
pub proof fn law_optimization_relaxes_underperforming_filters(
    s: Seq<(String, FilterPerformanceStats)>,
    th: AdaptiveThresholds,
)
    ensures
        filter_underperforms(s, "spread"@) && 0 <= th.spread_multiplier <= i64::MAX / 11 ==> {
            let m = spec_optimized_thresholds(s, th).spread_multiplier;
            m * 10 <= th.spread_multiplier * 11 < m * 10 + 10
        },
        !filter_underperforms(s, "spread"@) ==> spec_optimized_thresholds(s, th).spread_multiplier
            == th.spread_multiplier,
        filter_underperforms(s, "volatility"@) && 0 <= th.volatility_multiplier <= i64::MAX / 11 ==> {
            let m = spec_optimized_thresholds(s, th).volatility_multiplier;
            m * 10 <= th.volatility_multiplier * 11 < m * 10 + 10
        },
        !filter_underperforms(s, "volatility"@) ==> spec_optimized_thresholds(
            s,
            th,
        ).volatility_multiplier == th.volatility_multiplier,
        filter_underperforms(s, "correlation"@) && th.correlation_range_expansion <= i64::MAX
            - 50_000 ==> spec_optimized_thresholds(s, th).correlation_range_expansion
            == th.correlation_range_expansion + 50_000,
        !filter_underperforms(s, "correlation"@) ==> spec_optimized_thresholds(
            s,
            th,
        ).correlation_range_expansion == th.correlation_range_expansion,
{
    assert(filter_underperforms(s, "spread"@) == relaxes(s, "spread"@));
    assert(filter_underperforms(s, "volatility"@) == relaxes(s, "volatility"@));
    assert(filter_underperforms(s, "correlation"@) == relaxes(s, "correlation"@));
}

/// The text names a fifteen-minute window in one of the ways markets write
/// it.
pub open spec fn mentions_quarter_hour(text: Seq<char>) -> bool {
    ||| mentions(text, "15m"@)
    ||| mentions(text, "min15"@)
    ||| mentions(text, "m15"@)
    ||| mentions(text, "15 min"@)
    ||| mentions(text, "15-min"@)
    ||| mentions(text, "15min"@)
    ||| mentions(text, "15-minute"@)
    ||| mentions(text, "15 minute"@)
    ||| mentions(text, "updown-15m"@)
}

/// A market text that names a fifteen-minute window has that timeframe; one
/// that does not, but names an hour ("1h", "hour1", "h1", "1 hour", "60m",
/// "60 min", "60-minute"), is hourly.
pub proof fn law_market_text_timeframe_words(text: Seq<char>)
    ensures
        mentions_quarter_hour(text) ==> spec_timeframe_of_market_text(text) == Some(
            Timeframe::Min15,
        ),
        !mentions_quarter_hour(text) && (mentions(text, "1h"@) || mentions(text, "hour1"@)
            || mentions(text, "h1"@) || mentions(text, "1 hour"@) || mentions(text, "60m"@)
            || mentions(text, "60 min"@) || mentions(text, "60-minute"@))
            ==> spec_timeframe_of_market_text(text) == Some(Timeframe::Hour1),
{
}

/// An outcome label with an "up" word ("yes", "up", "higher", "above",
/// "true") means up; one with none of them but a "down" word ("no", "down",
/// "lower", "below", "false") means down; otherwise it means neither.
pub proof fn law_outcome_direction_words(label: Seq<char>)
    ensures
        mentions(label, "yes"@) || mentions(label, "up"@) || mentions(label, "higher"@) || mentions(
            label,
            "above"@,
        ) || mentions(label, "true"@) ==> spec_direction_of_outcome(Some(label)) == Some(
            Direction::Up,
        ),
        !(mentions(label, "yes"@) || mentions(label, "up"@) || mentions(label, "higher"@)
            || mentions(label, "above"@) || mentions(label, "true"@)) && (mentions(label, "no"@)
            || mentions(label, "down"@) || mentions(label, "lower"@) || mentions(label, "below"@)
            || mentions(label, "false"@)) ==> spec_direction_of_outcome(Some(label)) == Some(
            Direction::Down,
        ),
        spec_direction_of_outcome(None) is None,
{
}

/// A market question naming "15 min", "15m" or "15 minute" is a
/// fifteen-minute one; otherwise one naming "1 hour" or "1h", or an "hour"
/// without "24", is hourly; any other is taken as fifteen minutes. Its
/// direction is "UP" for "higher", "above", "up" or "over"; else "DOWN" for
/// "lower", "below", "down" or "under"; else "UNKNOWN".
pub proof fn law_question_timeframe_and_direction_words(question: Seq<char>)
    ensures
        mentions(question, "15 min"@) || mentions(question, "15m"@) || mentions(
            question,
            "15 minute"@,
        ) ==> spec_question_timeframe(ascii_lower(question)) == Timeframe::Min15,
        !(mentions(question, "15 min"@) || mentions(question, "15m"@) || mentions(
            question,
            "15 minute"@,
        )) && (mentions(question, "1 hour"@) || mentions(question, "1h"@) || (mentions(
            question,
            "hour"@,
        ) && !mentions(question, "24"@))) ==> spec_question_timeframe(ascii_lower(question))
            == Timeframe::Hour1,
        spec_question_timeframe(ascii_lower(question)) == Timeframe::Hour1 ==> mentions(
            question,
            "hour"@,
        ) || mentions(question, "1h"@),
        mentions(question, "higher"@) || mentions(question, "above"@) || mentions(question, "up"@)
            || mentions(question, "over"@) ==> spec_question_direction(ascii_lower(question))
            == "UP"@,
        !(mentions(question, "higher"@) || mentions(question, "above"@) || mentions(question, "up"@)
            || mentions(question, "over"@)) && (mentions(question, "lower"@) || mentions(
            question,
            "below"@,
        ) || mentions(question, "down"@) || mentions(question, "under"@)) ==> spec_question_direction(
            ascii_lower(question),
        ) == "DOWN"@,
        !(mentions(question, "higher"@) || mentions(question, "above"@) || mentions(question, "up"@)
            || mentions(question, "over"@)) && !(mentions(question, "lower"@) || mentions(
            question,
            "below"@,
        ) || mentions(question, "down"@) || mentions(question, "under"@)) ==> spec_question_direction(
            ascii_lower(question),
        ) == "UNKNOWN"@,
{
    assert(mentions(question, "1 hour"@) ==> mentions(question, "hour"@)) by {
        reveal_strlit("1 hour");
        reveal_strlit("hour");
        if mentions(question, "1 hour"@) {
            let t = ascii_lower(question);
            let i = choose|i: int| crate::text::occurs_at(t, "1 hour"@, i);
            assert(t.subrange(i, i + 6) == "1 hour"@);
            assert forall|k: int| 0 <= k < 4 implies #[trigger] t.subrange(i + 2, i + 6)[k]
                == "hour"@[k] by {
                assert(t.subrange(i, i + 6)[k + 2] == t[i + 2 + k]);
                assert("1 hour"@[k + 2] == "hour"@[k]);
            }
            assert(t.subrange(i + 2, i + 6) =~= "hour"@);
            assert(crate::text::occurs_at(t, "hour"@, i + 2));
        }
    }
}

/// A requested reset mode is accepted exactly when it spells
/// `hard_all_history` ignoring ASCII case, with `-` allowed for each `_`;
/// an accepted mode always plans a hard reset, another one plans nothing.
pub proof fn law_reset_mode_spelling(m: Seq<char>, reset: ResetConfig, cli_no_backup: bool)
    ensures
        spec_reset_plan(Some(m), reset, cli_no_backup) is Some <==> (m.len() == "hard_all_history"@.len()
            && forall|i: int|
            0 <= i < m.len() ==> ascii_lower_char(#[trigger] m[i]) == "hard_all_history"@[i] || (
            m[i] == '-' && "hard_all_history"@[i] == '_')),
        spec_reset_plan(Some(m), reset, cli_no_backup) is Some ==> spec_reset_plan(
            Some(m),
            reset,
            cli_no_backup,
        )->0 is Some,
{
    let n = normalized_mode(m);
    let target = "hard_all_history"@;
    reveal_strlit("hard_all_history");
    assert(target =~= seq![
        'h', 'a', 'r', 'd', '_', 'a', 'l', 'l', '_', 'h', 'i', 's', 't', 'o', 'r', 'y',
    ]);
    assert forall|i: int| 0 <= i < m.len() && i < target.len() implies (n[i] == target[i] <==> (
    ascii_lower_char(#[trigger] m[i]) == target[i] || (m[i] == '-' && target[i] == '_'))) by {
        assert(target[i] != '-');
        let c = m[i];
        if 'A' <= c && c <= 'Z' {
            let l = ((c as u32) + 32) as char;
            assert(l as u32 == (c as u32) + 32);
        }
    }
    if m.len() == target.len() && forall|i: int|
        0 <= i < m.len() ==> ascii_lower_char(#[trigger] m[i]) == target[i] || (m[i] == '-'
            && target[i] == '_') {
        assert(n =~= target);
    }
    if n == target {
        assert forall|i: int| 0 <= i < m.len() implies ascii_lower_char(#[trigger] m[i])
            == target[i] || (m[i] == '-' && target[i] == '_') by {
            assert(n[i] == target[i]);
        }
    }
}

} // verus!
