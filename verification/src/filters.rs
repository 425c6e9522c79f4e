use vstd::prelude::*;
use crate::config::SCALE;
use crate::text::str_eq;
use crate::types::{Asset, Timeframe};
use std::collections::HashMap;

verus! {

// ---------------------------------------------------------------------------
// Decisions and reasons
// ---------------------------------------------------------------------------

/// Why an entry was refused.
#[derive(Clone, Debug)]
pub enum FilterReason {
    InsufficientLiquidity,
    ExcessiveSpread,
    HighVolatility,
    LowVolatility,
    SuboptimalHour,
    UnstableCorrelation,
    LateEntry,
    InsufficientTime,
    MacroEvent,
    MarketClosed,
    Custom(String),
}

/// Outcome of the entry filters.
#[derive(Clone, Debug)]
pub enum FilterDecision {
    Allow,
    Reject(FilterReason),
}

/// Position of a reason's variant in the declaration.
pub open spec fn reason_tag(r: FilterReason) -> u8 {
    match r {
        FilterReason::InsufficientLiquidity => 0,
        FilterReason::ExcessiveSpread => 1,
        FilterReason::HighVolatility => 2,
        FilterReason::LowVolatility => 3,
        FilterReason::SuboptimalHour => 4,
        FilterReason::UnstableCorrelation => 5,
        FilterReason::LateEntry => 6,
        FilterReason::InsufficientTime => 7,
        FilterReason::MacroEvent => 8,
        FilterReason::MarketClosed => 9,
        FilterReason::Custom(_) => 10,
    }
}

/// Two reasons are the same: same variant, and for `Custom` the same text.
pub open spec fn same_reason(a: FilterReason, b: FilterReason) -> bool {
    &&& reason_tag(a) == reason_tag(b)
    &&& (a matches FilterReason::Custom(x) ==> (b matches FilterReason::Custom(y) && x@ == y@))
}

/// Two decisions are the same.
pub open spec fn same_decision(a: FilterDecision, b: FilterDecision) -> bool {
    match (a, b) {
        (FilterDecision::Allow, FilterDecision::Allow) => true,
        (FilterDecision::Reject(x), FilterDecision::Reject(y)) => same_reason(x, y),
        _ => false,
    }
}

impl FilterReason {
    fn tag(&self) -> (t: u8)
        ensures
            t == reason_tag(*self),
    {
        match self {
            FilterReason::InsufficientLiquidity => 0,
            FilterReason::ExcessiveSpread => 1,
            FilterReason::HighVolatility => 2,
            FilterReason::LowVolatility => 3,
            FilterReason::SuboptimalHour => 4,
            FilterReason::UnstableCorrelation => 5,
            FilterReason::LateEntry => 6,
            FilterReason::InsufficientTime => 7,
            FilterReason::MacroEvent => 8,
            FilterReason::MarketClosed => 9,
            FilterReason::Custom(_) => 10,
        }
    }
}

impl PartialEq for FilterReason {
    fn eq(&self, other: &Self) -> (r: bool) {
        match self {
            FilterReason::Custom(x) => match other {
                FilterReason::Custom(y) => x.eq(y),
                _ => false,
            },
            _ => self.tag() == other.tag(),
        }
    }
}

impl vstd::std_specs::cmp::PartialEqSpecImpl for FilterReason {
    open spec fn obeys_eq_spec() -> bool {
        true
    }

    open spec fn eq_spec(&self, other: &Self) -> bool {
        same_reason(*self, *other)
    }
}

impl PartialEq for FilterDecision {
    fn eq(&self, other: &Self) -> (r: bool) {
        match (self, other) {
            (FilterDecision::Allow, FilterDecision::Allow) => true,
            (FilterDecision::Reject(x), FilterDecision::Reject(y)) => x == y,
            _ => false,
        }
    }
}

impl vstd::std_specs::cmp::PartialEqSpecImpl for FilterDecision {
    open spec fn obeys_eq_spec() -> bool {
        true
    }

    open spec fn eq_spec(&self, other: &Self) -> bool {
        same_decision(*self, *other)
    }
}

/// Label of a reason as it appears in logs and reports.
pub open spec fn spec_reason_label(r: FilterReason) -> Seq<char> {
    match r {
        FilterReason::InsufficientLiquidity => "insufficient_liquidity"@,
        FilterReason::ExcessiveSpread => "excessive_spread"@,
        FilterReason::HighVolatility => "high_volatility"@,
        FilterReason::LowVolatility => "low_volatility"@,
        FilterReason::SuboptimalHour => "suboptimal_hour"@,
        FilterReason::UnstableCorrelation => "unstable_correlation"@,
        FilterReason::LateEntry => "late_entry"@,
        FilterReason::InsufficientTime => "insufficient_time"@,
        FilterReason::MacroEvent => "macro_event"@,
        FilterReason::MarketClosed => "market_closed"@,
        FilterReason::Custom(s) => s@,
    }
}

impl FilterReason {
    /// Label of this reason (`Custom` reasons carry their own).
    pub fn label(&self) -> (s: String)
        ensures
            s@ == spec_reason_label(*self),
    {
        match self {
            FilterReason::InsufficientLiquidity => "insufficient_liquidity".to_owned(),
            FilterReason::ExcessiveSpread => "excessive_spread".to_owned(),
            FilterReason::HighVolatility => "high_volatility".to_owned(),
            FilterReason::LowVolatility => "low_volatility".to_owned(),
            FilterReason::SuboptimalHour => "suboptimal_hour".to_owned(),
            FilterReason::UnstableCorrelation => "unstable_correlation".to_owned(),
            FilterReason::LateEntry => "late_entry".to_owned(),
            FilterReason::InsufficientTime => "insufficient_time".to_owned(),
            FilterReason::MacroEvent => "macro_event".to_owned(),
            FilterReason::MarketClosed => "market_closed".to_owned(),
            FilterReason::Custom(s) => s.clone(),
        }
    }
}


// ---------------------------------------------------------------------------
// Configuration, context and statistics
// ---------------------------------------------------------------------------

/// Thresholds of the entry filters. Fractional values are fixed point (see
/// [`SCALE`]): spreads in millionths of a basis point, depths in millionths
/// of a USDC, volatilities, progress and correlations in millionths, minutes
/// in millionths of a minute.
#[derive(Clone, Copy, Debug, PartialEq, Eq, Structural)]
pub struct FilterConfig {
    pub max_spread_bps_15m: i64,
    pub max_spread_bps_1h: i64,
    pub min_depth_usdc: i64,
    pub max_volatility_5m: i64,
    pub min_volatility_5m: i64,
    pub optimal_hours_only: bool,
    pub min_btc_eth_correlation: i64,
    pub max_btc_eth_correlation: i64,
    pub max_window_progress: i64,
    pub min_time_to_close_minutes: i64,
    pub min_model_confidence: i64,
}

/// The default thresholds.
pub open spec fn default_filter_config() -> FilterConfig {
    FilterConfig {
        max_spread_bps_15m: 100_000_000,
        max_spread_bps_1h: 150_000_000,
        min_depth_usdc: 5_000_000_000,
        max_volatility_5m: 20_000,
        min_volatility_5m: 1_000,
        optimal_hours_only: false,
        min_btc_eth_correlation: 600_000,
        max_btc_eth_correlation: 950_000,
        max_window_progress: 700_000,
        min_time_to_close_minutes: 3_000_000,
        min_model_confidence: 550_000,
    }
}

impl Default for FilterConfig {
    fn default() -> (c: Self)
        ensures
            c == default_filter_config(),
    {
        FilterConfig {
            max_spread_bps_15m: 100_000_000,
            max_spread_bps_1h: 150_000_000,
            min_depth_usdc: 5_000_000_000,
            max_volatility_5m: 20_000,
            min_volatility_5m: 1_000,
            optimal_hours_only: false,
            min_btc_eth_correlation: 600_000,
            max_btc_eth_correlation: 950_000,
            max_window_progress: 700_000,
            min_time_to_close_minutes: 3_000_000,
            min_model_confidence: 550_000,
        }
    }
}

/// Market state against which an entry is filtered (fixed point as in
/// [`FilterConfig`]).
#[derive(Clone, Copy, Debug, PartialEq, Eq, Structural)]
pub struct FilterContext {
    pub asset: Asset,
    pub timeframe: Timeframe,
    pub timestamp: i64,
    pub spread_bps: i64,
    pub depth_usdc: i64,
    pub orderbook_depth: i64,
    pub volatility_5m: i64,
    pub hour: u8,
    pub day_of_week: u8,
    pub minutes_to_close: i64,
    pub window_progress: i64,
    pub btc_eth_correlation: i64,
    pub is_macro_event_near: bool,
    pub model_confidence: i64,
}

impl Default for FilterContext {
    fn default() -> (c: Self)
        ensures
            c == (FilterContext {
                asset: Asset::BTC,
                timeframe: Timeframe::Min15,
                timestamp: 0,
                spread_bps: 0,
                depth_usdc: 0,
                orderbook_depth: 0,
                volatility_5m: 0,
                hour: 0,
                day_of_week: 0,
                minutes_to_close: 0,
                window_progress: 0,
                btc_eth_correlation: 0,
                is_macro_event_near: false,
                model_confidence: 0,
            }),
    {
        FilterContext {
            asset: Asset::BTC,
            timeframe: Timeframe::Min15,
            timestamp: 0,
            spread_bps: 0,
            depth_usdc: 0,
            orderbook_depth: 0,
            volatility_5m: 0,
            hour: 0,
            day_of_week: 0,
            minutes_to_close: 0,
            window_progress: 0,
            btc_eth_correlation: 0,
            is_macro_event_near: false,
            model_confidence: 0,
        }
    }
}

/// How trades fared when a filter let them through and when it refused them.
#[derive(Clone, Copy, Debug, PartialEq, Eq, Structural)]
pub struct FilterPerformanceStats {
    pub times_applied: usize,
    pub allowed: usize,
    pub rejected: usize,
    pub wins_allowed: usize,
    pub losses_allowed: usize,
    pub wins_rejected: usize,
    pub losses_rejected: usize,
}

/// Statistics of a filter that was never applied.
pub open spec fn empty_stats() -> FilterPerformanceStats {
    FilterPerformanceStats {
        times_applied: 0,
        allowed: 0,
        rejected: 0,
        wins_allowed: 0,
        losses_allowed: 0,
        wins_rejected: 0,
        losses_rejected: 0,
    }
}

impl Default for FilterPerformanceStats {
    fn default() -> (s: Self)
        ensures
            s == empty_stats(),
    {
        FilterPerformanceStats {
            times_applied: 0,
            allowed: 0,
            rejected: 0,
            wins_allowed: 0,
            losses_allowed: 0,
            wins_rejected: 0,
            losses_rejected: 0,
        }
    }
}

/// Win rate as a fraction `(numerator, denominator)`: wins over decided
/// trades, and one half while there is none.
pub open spec fn win_rate(wins: int, losses: int) -> (int, int) {
    if wins + losses == 0 {
        (1, 2)
    } else {
        (wins, wins + losses)
    }
}

/// The win rate of allowed trades is strictly above that of refused trades.
pub open spec fn spec_is_effective(s: FilterPerformanceStats) -> bool {
    let (na, da) = win_rate(s.wins_allowed as int, s.losses_allowed as int);
    let (nr, dr) = win_rate(s.wins_rejected as int, s.losses_rejected as int);
    na * dr > nr * da
}

/// The win/loss totals of both sides fit in a `usize`.
pub open spec fn totals_fit(s: FilterPerformanceStats) -> bool {
    &&& s.wins_allowed + s.losses_allowed <= usize::MAX
    &&& s.wins_rejected + s.losses_rejected <= usize::MAX
}

impl FilterPerformanceStats {
    /// Whether the filter improves the win rate: trades it let through won
    /// more often than trades it refused. The rates are compared exactly, as
    /// fractions.
    pub fn is_effective(&self) -> (b: bool)
        requires
            totals_fit(*self),
        ensures
            b == spec_is_effective(*self),
    {
        let total_a = self.wins_allowed + self.losses_allowed;
        let total_r = self.wins_rejected + self.losses_rejected;
        let (na, da): (u128, u128) = if total_a == 0 {
            (1, 2)
        } else {
            (self.wins_allowed as u128, total_a as u128)
        };
        let (nr, dr): (u128, u128) = if total_r == 0 {
            (1, 2)
        } else {
            (self.wins_rejected as u128, total_r as u128)
        };
        assert(na * dr <= u64::MAX * u64::MAX) by (nonlinear_arith)
            requires
                na <= u64::MAX,
                dr <= u64::MAX,
        ;
        assert(nr * da <= u64::MAX * u64::MAX) by (nonlinear_arith)
            requires
                nr <= u64::MAX,
                da <= u64::MAX,
        ;
        na * dr > nr * da
    }
}

/// Adjustments of the thresholds learnt from the filters' performance
/// (fixed point: the multipliers start at `SCALE`, i.e. 1.0).
#[derive(Clone, Copy, Debug, PartialEq, Eq, Structural)]
pub struct AdaptiveThresholds {
    pub spread_multiplier: i64,
    pub volatility_multiplier: i64,
    pub correlation_range_expansion: i64,
}

impl Default for AdaptiveThresholds {
    fn default() -> (t: Self)
        ensures
            t == (AdaptiveThresholds {
                spread_multiplier: SCALE,
                volatility_multiplier: SCALE,
                correlation_range_expansion: 0,
            }),
    {
        AdaptiveThresholds {
            spread_multiplier: SCALE,
            volatility_multiplier: SCALE,
            correlation_range_expansion: 0,
        }
    }
}

/// The entry filters, with what they learnt.
pub struct SmartFilterEngine {
    pub config: FilterConfig,
    /// Performance of each named filter; each name occurs once.
    pub stats: Vec<(String, FilterPerformanceStats)>,
    /// Hours of the day (0-23) with a good track record.
    pub optimal_hours: Vec<u8>,
    pub adaptive_thresholds: AdaptiveThresholds,
}

// ---------------------------------------------------------------------------
// The checks
// ---------------------------------------------------------------------------

/// Liquidity check: the book must be at least as deep as configured.
pub open spec fn spec_check_liquidity(cfg: FilterConfig, ctx: FilterContext) -> Option<FilterReason> {
    if ctx.orderbook_depth < cfg.min_depth_usdc {
        Some(FilterReason::InsufficientLiquidity)
    } else {
        None
    }
}

/// Configured spread limit of a timeframe, before adaptation.
pub open spec fn max_spread_for(cfg: FilterConfig, tf: Timeframe) -> i64 {
    match tf {
        Timeframe::Min15 => cfg.max_spread_bps_15m,
        Timeframe::Hour1 => cfg.max_spread_bps_1h,
    }
}

/// Spread check: the spread may not exceed the timeframe's limit scaled by
/// the adaptive multiplier (compared exactly).
pub open spec fn spec_check_spread(
    cfg: FilterConfig,
    th: AdaptiveThresholds,
    ctx: FilterContext,
) -> Option<FilterReason> {
    if ctx.spread_bps * SCALE > max_spread_for(cfg, ctx.timeframe) * th.spread_multiplier {
        Some(FilterReason::ExcessiveSpread)
    } else {
        None
    }
}

/// Volatility check: above the (adapted) maximum is too volatile, below the
/// minimum too quiet.
pub open spec fn spec_check_volatility(
    cfg: FilterConfig,
    th: AdaptiveThresholds,
    ctx: FilterContext,
) -> Option<FilterReason> {
    if ctx.volatility_5m * SCALE > cfg.max_volatility_5m * th.volatility_multiplier {
        Some(FilterReason::HighVolatility)
    } else if ctx.volatility_5m < cfg.min_volatility_5m {
        Some(FilterReason::LowVolatility)
    } else {
        None
    }
}

/// Timing check: enough time left, not too late in the window, and, when
/// trading is restricted to learnt hours and some are known, one of them.
pub open spec fn spec_check_timing(
    cfg: FilterConfig,
    optimal_hours: Seq<u8>,
    ctx: FilterContext,
) -> Option<FilterReason> {
    if ctx.minutes_to_close < cfg.min_time_to_close_minutes {
        Some(FilterReason::InsufficientTime)
    } else if ctx.window_progress > cfg.max_window_progress {
        Some(FilterReason::LateEntry)
    } else if cfg.optimal_hours_only && optimal_hours.len() > 0 && !optimal_hours.contains(
        ctx.hour,
    ) {
        Some(FilterReason::SuboptimalHour)
    } else {
        None
    }
}

/// Lower bound of the accepted correlation band (widened, never below 0).
pub open spec fn min_correlation(cfg: FilterConfig, th: AdaptiveThresholds) -> int {
    let lo = cfg.min_btc_eth_correlation - th.correlation_range_expansion;
    if lo > 0 {
        lo
    } else {
        0
    }
}

/// Upper bound of the accepted correlation band (widened, never above 1).
pub open spec fn max_correlation(cfg: FilterConfig, th: AdaptiveThresholds) -> int {
    let hi = cfg.max_btc_eth_correlation + th.correlation_range_expansion;
    if hi < SCALE {
        hi
    } else {
        SCALE as int
    }
}

/// Correlation check: BTC/ETH correlation must lie in the accepted band.
pub open spec fn spec_check_correlation(
    cfg: FilterConfig,
    th: AdaptiveThresholds,
    ctx: FilterContext,
) -> Option<FilterReason> {
    if ctx.btc_eth_correlation < min_correlation(cfg, th) || ctx.btc_eth_correlation
        > max_correlation(cfg, th) {
        Some(FilterReason::UnstableCorrelation)
    } else {
        None
    }
}

/// Macro-event check: no entry close to a macro event.
pub open spec fn spec_check_macro_events(ctx: FilterContext) -> Option<FilterReason> {
    if ctx.is_macro_event_near {
        Some(FilterReason::MacroEvent)
    } else {
        None
    }
}

/// Decision of the filters: the reason of the first check that refuses, or
/// `Allow` when none does.
pub open spec fn spec_evaluate(
    cfg: FilterConfig,
    th: AdaptiveThresholds,
    optimal_hours: Seq<u8>,
    ctx: FilterContext,
) -> FilterDecision {
    if let Some(r) = spec_check_liquidity(cfg, ctx) {
        FilterDecision::Reject(r)
    } else if let Some(r) = spec_check_spread(cfg, th, ctx) {
        FilterDecision::Reject(r)
    } else if let Some(r) = spec_check_volatility(cfg, th, ctx) {
        FilterDecision::Reject(r)
    } else if let Some(r) = spec_check_timing(cfg, optimal_hours, ctx) {
        FilterDecision::Reject(r)
    } else if let Some(r) = spec_check_correlation(cfg, th, ctx) {
        FilterDecision::Reject(r)
    } else if let Some(r) = spec_check_macro_events(ctx) {
        FilterDecision::Reject(r)
    } else {
        FilterDecision::Allow
    }
}

/// Whether `hours` holds `h`.
fn hours_contain(hours: &Vec<u8>, h: u8) -> (b: bool)
    ensures
        b == hours@.contains(h),
{
    let mut i: usize = 0;
    while i < hours.len()
        invariant
            i <= hours.len(),
            forall|k: int| 0 <= k < i ==> hours@[k] != h,
        decreases hours.len() - i,
    {
        if hours[i] == h {
            return true;
        }
        i = i + 1;
    }
    false
}

/// `a * b` of two 64-bit values, which always fits in 128 bits.
fn wide_mul(a: i64, b: i64) -> (p: i128)
    ensures
        p == a * b,
{
    let x = a as i128;
    let y = b as i128;
    assert(-0x8000_0000_0000_0000 * 0x8000_0000_0000_0000 <= x * y <= 0x8000_0000_0000_0000
        * 0x8000_0000_0000_0000) by (nonlinear_arith)
        requires
            -0x8000_0000_0000_0000 <= x <= 0x7fff_ffff_ffff_ffff,
            -0x8000_0000_0000_0000 <= y <= 0x7fff_ffff_ffff_ffff,
    ;
    x * y
}

impl SmartFilterEngine {
    /// An engine with the given thresholds and nothing learnt yet.
    pub fn new(config: FilterConfig) -> (e: Self)
        ensures
            e.config == config,
            e.stats@.len() == 0,
            e.optimal_hours@.len() == 0,
            e.adaptive_thresholds == (AdaptiveThresholds {
                spread_multiplier: SCALE,
                volatility_multiplier: SCALE,
                correlation_range_expansion: 0,
            }),
    {
        SmartFilterEngine {
            config,
            stats: Vec::new(),
            optimal_hours: Vec::new(),
            adaptive_thresholds: AdaptiveThresholds::default(),
        }
    }

    /// Runs the checks in order (liquidity, spread, volatility, timing,
    /// correlation, macro events) and refuses with the first failing one.
    pub fn evaluate(&self, context: &FilterContext) -> (d: FilterDecision)
        ensures
            d == spec_evaluate(
                self.config,
                self.adaptive_thresholds,
                self.optimal_hours@,
                *context,
            ),
    {
        if let Some(r) = self.check_liquidity(context) {
            return FilterDecision::Reject(r);
        }
        if let Some(r) = self.check_spread(context) {
            return FilterDecision::Reject(r);
        }
        if let Some(r) = self.check_volatility(context) {
            return FilterDecision::Reject(r);
        }
        if let Some(r) = self.check_timing(context) {
            return FilterDecision::Reject(r);
        }
        if let Some(r) = self.check_correlation(context) {
            return FilterDecision::Reject(r);
        }
        if let Some(r) = self.check_macro_events(context) {
            return FilterDecision::Reject(r);
        }
        FilterDecision::Allow
    }

    fn check_liquidity(&self, context: &FilterContext) -> (r: Option<FilterReason>)
        ensures
            r == spec_check_liquidity(self.config, *context),
    {
        if context.orderbook_depth < self.config.min_depth_usdc {
            return Some(FilterReason::InsufficientLiquidity);
        }
        None
    }

    fn check_spread(&self, context: &FilterContext) -> (r: Option<FilterReason>)
        ensures
            r == spec_check_spread(self.config, self.adaptive_thresholds, *context),
    {
        let max_spread = match context.timeframe {
            Timeframe::Min15 => self.config.max_spread_bps_15m,
            Timeframe::Hour1 => self.config.max_spread_bps_1h,
        };
        let limit = wide_mul(max_spread, self.adaptive_thresholds.spread_multiplier);
        if wide_mul(context.spread_bps, SCALE) > limit {
            return Some(FilterReason::ExcessiveSpread);
        }
        None
    }

    fn check_volatility(&self, context: &FilterContext) -> (r: Option<FilterReason>)
        ensures
            r == spec_check_volatility(self.config, self.adaptive_thresholds, *context),
    {
        let vol = context.volatility_5m;
        let max_vol = wide_mul(
            self.config.max_volatility_5m,
            self.adaptive_thresholds.volatility_multiplier,
        );
        if wide_mul(vol, SCALE) > max_vol {
            return Some(FilterReason::HighVolatility);
        }
        if vol < self.config.min_volatility_5m {
            return Some(FilterReason::LowVolatility);
        }
        None
    }

    fn check_timing(&self, context: &FilterContext) -> (r: Option<FilterReason>)
        ensures
            r == spec_check_timing(self.config, self.optimal_hours@, *context),
    {
        if context.minutes_to_close < self.config.min_time_to_close_minutes {
            return Some(FilterReason::InsufficientTime);
        }
        if context.window_progress > self.config.max_window_progress {
            return Some(FilterReason::LateEntry);
        }
        if self.config.optimal_hours_only && self.optimal_hours.len() > 0 {
            if !hours_contain(&self.optimal_hours, context.hour) {
                return Some(FilterReason::SuboptimalHour);
            }
        }
        None
    }

    fn check_correlation(&self, context: &FilterContext) -> (r: Option<FilterReason>)
        ensures
            r == spec_check_correlation(self.config, self.adaptive_thresholds, *context),
    {
        let corr = context.btc_eth_correlation as i128;
        let expansion = self.adaptive_thresholds.correlation_range_expansion as i128;
        let lo = self.config.min_btc_eth_correlation as i128 - expansion;
        let min_corr: i128 = if lo > 0 {
            lo
        } else {
            0
        };
        let hi = self.config.max_btc_eth_correlation as i128 + expansion;
        let max_corr: i128 = if hi < SCALE as i128 {
            hi
        } else {
            SCALE as i128
        };
        if corr < min_corr || corr > max_corr {
            return Some(FilterReason::UnstableCorrelation);
        }
        None
    }

    fn check_macro_events(&self, context: &FilterContext) -> (r: Option<FilterReason>)
        ensures
            r == spec_check_macro_events(*context),
    {
        if context.is_macro_event_near {
            return Some(FilterReason::MacroEvent);
        }
        None
    }
}

// ---------------------------------------------------------------------------
// Learning
// ---------------------------------------------------------------------------

/// Statistics table as (name, statistics) pairs.
pub open spec fn stats_view(s: Seq<(String, FilterPerformanceStats)>) -> Seq<
    (Seq<char>, FilterPerformanceStats),
> {
    s.map_values(|e: (String, FilterPerformanceStats)| (e.0@, e.1))
}

/// Each filter name occurs at most once in the table.
pub open spec fn keys_unique(s: Seq<(String, FilterPerformanceStats)>) -> bool {
    forall|i: int, j: int|
        0 <= i < s.len() && 0 <= j < s.len() && i != j ==> #[trigger] s[i].0@ != #[trigger] s[j].0@
}

/// The table has an entry for `k`.
pub open spec fn has_key(s: Seq<(String, FilterPerformanceStats)>, k: Seq<char>) -> bool {
    exists|i: int| 0 <= i < s.len() && #[trigger] s[i].0@ == k
}

/// Statistics after recording one trade: nothing changes unless the filter
/// was applied; then the trade is counted as allowed or refused, and as a win
/// or a loss on that side.
pub open spec fn bumped(
    st: FilterPerformanceStats,
    applied: bool,
    was_win: bool,
    allowed: bool,
) -> FilterPerformanceStats {
    if !applied {
        st
    } else if allowed {
        FilterPerformanceStats {
            times_applied: (st.times_applied + 1) as usize,
            allowed: (st.allowed + 1) as usize,
            wins_allowed: if was_win {
                (st.wins_allowed + 1) as usize
            } else {
                st.wins_allowed
            },
            losses_allowed: if was_win {
                st.losses_allowed
            } else {
                (st.losses_allowed + 1) as usize
            },
            ..st
        }
    } else {
        FilterPerformanceStats {
            times_applied: (st.times_applied + 1) as usize,
            rejected: (st.rejected + 1) as usize,
            wins_rejected: if was_win {
                (st.wins_rejected + 1) as usize
            } else {
                st.wins_rejected
            },
            losses_rejected: if was_win {
                st.losses_rejected
            } else {
                (st.losses_rejected + 1) as usize
            },
            ..st
        }
    }
}

/// The counters that recording the trade increments are below `usize::MAX`.
pub open spec fn can_bump(
    st: FilterPerformanceStats,
    applied: bool,
    was_win: bool,
    allowed: bool,
) -> bool {
    applied ==> {
        &&& st.times_applied < usize::MAX
        &&& allowed ==> st.allowed < usize::MAX
        &&& !allowed ==> st.rejected < usize::MAX
        &&& (allowed && was_win) ==> st.wins_allowed < usize::MAX
        &&& (allowed && !was_win) ==> st.losses_allowed < usize::MAX
        &&& (!allowed && was_win) ==> st.wins_rejected < usize::MAX
        &&& (!allowed && !was_win) ==> st.losses_rejected < usize::MAX
    }
}

/// The filter named `k` has been applied at least 20 times and is not
/// effective, so its threshold is relaxed.
pub open spec fn relaxes(s: Seq<(String, FilterPerformanceStats)>, k: Seq<char>) -> bool {
    exists|i: int| 0 <= i < s.len() && #[trigger] s[i].0@ == k && needs_relaxing(s[i].1)
}

/// Enough evidence that a filter refuses winners.
pub open spec fn needs_relaxing(st: FilterPerformanceStats) -> bool {
    st.times_applied >= 20 && !spec_is_effective(st)
}

/// A multiplier grown by a tenth (rounded toward zero), saturating at the
/// bounds of `i64`.
pub open spec fn grown(m: i64) -> i64 {
    let g: int = if m >= 0 {
        (m * 11) / 10
    } else {
        -((-m * 11) / 10)
    };
    if g > i64::MAX {
        i64::MAX
    } else if g < i64::MIN {
        i64::MIN
    } else {
        g as i64
    }
}

/// A correlation band widened by 0.05 on each side, saturating.
pub open spec fn widened(e: i64) -> i64 {
    if e + 50_000 > i64::MAX {
        i64::MAX
    } else {
        (e + 50_000) as i64
    }
}

/// Thresholds after one round of optimization over the statistics table.
pub open spec fn spec_optimized_thresholds(
    s: Seq<(String, FilterPerformanceStats)>,
    th: AdaptiveThresholds,
) -> AdaptiveThresholds {
    AdaptiveThresholds {
        spread_multiplier: if relaxes(s, "spread"@) {
            grown(th.spread_multiplier)
        } else {
            th.spread_multiplier
        },
        volatility_multiplier: if relaxes(s, "volatility"@) {
            grown(th.volatility_multiplier)
        } else {
            th.volatility_multiplier
        },
        correlation_range_expansion: if relaxes(s, "correlation"@) {
            widened(th.correlation_range_expansion)
        } else {
            th.correlation_range_expansion
        },
    }
}

fn grow_multiplier(m: i64) -> (g: i64)
    ensures
        g == grown(m),
{
    let wide = m as i128;
    let g: i128 = if wide >= 0 {
        let u = wide as u128;
        (u * 11 / 10) as i128
    } else {
        let u = (-wide) as u128;
        -((u * 11 / 10) as i128)
    };
    if g > i64::MAX as i128 {
        i64::MAX
    } else if g < i64::MIN as i128 {
        i64::MIN
    } else {
        g as i64
    }
}

fn widen_band(e: i64) -> (w: i64)
    ensures
        w == widened(e),
{
    if e > i64::MAX - 50_000 {
        i64::MAX
    } else {
        e + 50_000
    }
}

/// Trades of the given hour.
pub open spec fn hour_total(t: Seq<(u8, bool)>, h: u8) -> nat
    decreases t.len(),
{
    if t.len() == 0 {
        0
    } else {
        hour_total(t.drop_last(), h) + if t.last().0 == h {
            1nat
        } else {
            0nat
        }
    }
}

/// Winning trades of the given hour.
pub open spec fn hour_wins(t: Seq<(u8, bool)>, h: u8) -> nat
    decreases t.len(),
{
    if t.len() == 0 {
        0
    } else {
        hour_wins(t.drop_last(), h) + if t.last().0 == h && t.last().1 {
            1nat
        } else {
            0nat
        }
    }
}

/// An hour with at least five trades and a win rate above 55%.
pub open spec fn is_optimal_hour(t: Seq<(u8, bool)>, h: u8) -> bool {
    hour_total(t, h) >= 5 && 100 * hour_wins(t, h) > 55 * hour_total(t, h)
}

/// (wins, total) recorded for an hour in a table of hourly counts; none
/// recorded counts as (0, 0).
pub open spec fn hour_counts(m: Map<u8, (usize, usize)>, h: u8) -> (nat, nat) {
    if m.contains_key(h) {
        (m[h].0 as nat, m[h].1 as nat)
    } else {
        (0, 0)
    }
}

proof fn lemma_hour_counts_bounded(t: Seq<(u8, bool)>, h: u8)
    ensures
        hour_wins(t, h) <= hour_total(t, h) <= t.len(),
    decreases t.len(),
{
    if t.len() > 0 {
        lemma_hour_counts_bounded(t.drop_last(), h);
    }
}

impl SmartFilterEngine {
    /// Records the outcome of a trade for the filter `filter_name`, creating
    /// its entry if needed.
    pub fn update_stats(&mut self, filter_name: &str, applied: bool, was_win: bool, allowed: bool)
        requires
            keys_unique(old(self).stats@),
            forall|i: int|
                0 <= i < old(self).stats@.len() && #[trigger] old(self).stats@[i].0@
                    == filter_name@ ==> can_bump(old(self).stats@[i].1, applied, was_win, allowed),
        ensures
            keys_unique(final(self).stats@),
            final(self).config == old(self).config,
            final(self).optimal_hours@ == old(self).optimal_hours@,
            final(self).adaptive_thresholds == old(self).adaptive_thresholds,
            has_key(old(self).stats@, filter_name@) ==> stats_view(final(self).stats@)
                == stats_view(old(self).stats@).map_values(
                |e: (Seq<char>, FilterPerformanceStats)|
                    if e.0 == filter_name@ {
                        (e.0, bumped(e.1, applied, was_win, allowed))
                    } else {
                        e
                    },
            ),
            !has_key(old(self).stats@, filter_name@) ==> stats_view(final(self).stats@)
                == stats_view(old(self).stats@).push(
                (filter_name@, bumped(empty_stats(), applied, was_win, allowed)),
            ),
    {
        let n = self.stats.len();
        let mut i: usize = 0;
        while i < n
            invariant
                n == self.stats.len(),
                i <= n,
                self.stats@ == old(self).stats@,
                self.config == old(self).config,
                self.optimal_hours@ == old(self).optimal_hours@,
                self.adaptive_thresholds == old(self).adaptive_thresholds,
                keys_unique(old(self).stats@),
                forall|k: int|
                    0 <= k < old(self).stats@.len() && #[trigger] old(self).stats@[k].0@
                        == filter_name@ ==> can_bump(old(self).stats@[k].1, applied, was_win, allowed),
                forall|k: int| 0 <= k < i ==> #[trigger] self.stats@[k].0@ != filter_name@,
            decreases n - i,
        {
            if str_eq(self.stats[i].0.as_str(), filter_name) {
                assert(old(self).stats@[i as int].0@ == filter_name@);
                let st = self.stats[i].1;
                let new_st = Self::bump(st, applied, was_win, allowed);
                self.stats[i].1 = new_st;
                assert(self.stats@ == old(self).stats@.update(
                    i as int,
                    (old(self).stats@[i as int].0, new_st),
                ));
                proof {
                    assert(stats_view(self.stats@) =~= stats_view(old(self).stats@).map_values(
                        |e: (Seq<char>, FilterPerformanceStats)|
                            if e.0 == filter_name@ {
                                (e.0, bumped(e.1, applied, was_win, allowed))
                            } else {
                                e
                            },
                    ));
                }
                assert(keys_unique(self.stats@)) by {
                    assert forall|a: int, b: int|
                        0 <= a < self.stats@.len() && 0 <= b < self.stats@.len() && a != b implies #[trigger] self.stats@[a].0@
                        != #[trigger] self.stats@[b].0@ by {
                        assert(self.stats@[a].0@ == old(self).stats@[a].0@);
                        assert(self.stats@[b].0@ == old(self).stats@[b].0@);
                    }
                }
                return;
            }
            i = i + 1;
        }
        let fresh = Self::bump(FilterPerformanceStats::default(), applied, was_win, allowed);
        self.stats.push((filter_name.to_owned(), fresh));
        assert(stats_view(self.stats@) =~= stats_view(old(self).stats@).push(
            (filter_name@, bumped(empty_stats(), applied, was_win, allowed)),
        ));
        assert(!has_key(old(self).stats@, filter_name@));
        assert(keys_unique(self.stats@)) by {
            assert forall|a: int, b: int|
                0 <= a < self.stats@.len() && 0 <= b < self.stats@.len() && a != b implies #[trigger] self.stats@[a].0@
                != #[trigger] self.stats@[b].0@ by {
                if a < n && b < n {
                    assert(self.stats@[a] == old(self).stats@[a]);
                    assert(self.stats@[b] == old(self).stats@[b]);
                } else if a < n {
                    assert(self.stats@[a] == old(self).stats@[a]);
                    assert(old(self).stats@[a].0@ != filter_name@);
                } else {
                    assert(self.stats@[b] == old(self).stats@[b]);
                    assert(old(self).stats@[b].0@ != filter_name@);
                }
            }
        }
    }

    fn bump(st: FilterPerformanceStats, applied: bool, was_win: bool, allowed: bool) -> (r:
        FilterPerformanceStats)
        requires
            can_bump(st, applied, was_win, allowed),
        ensures
            r == bumped(st, applied, was_win, allowed),
    {
        let mut r = st;
        if applied {
            r.times_applied = r.times_applied + 1;
            if allowed {
                r.allowed = r.allowed + 1;
                if was_win {
                    r.wins_allowed = r.wins_allowed + 1;
                } else {
                    r.losses_allowed = r.losses_allowed + 1;
                }
            } else {
                r.rejected = r.rejected + 1;
                if was_win {
                    r.wins_rejected = r.wins_rejected + 1;
                } else {
                    r.losses_rejected = r.losses_rejected + 1;
                }
            }
        }
        r
    }

    /// Relaxes the threshold of every filter that, after at least 20
    /// applications, refuses winners at least as often as it lets them
    /// through: the spread and volatility multipliers grow by a tenth, the
    /// correlation band widens by 0.05.
    pub fn auto_optimize(&mut self)
        requires
            keys_unique(old(self).stats@),
            forall|i: int| 0 <= i < old(self).stats@.len() ==> totals_fit(#[trigger] old(self).stats@[i].1),
        ensures
            final(self).stats@ == old(self).stats@,
            final(self).config == old(self).config,
            final(self).optimal_hours@ == old(self).optimal_hours@,
            final(self).adaptive_thresholds == spec_optimized_thresholds(
                old(self).stats@,
                old(self).adaptive_thresholds,
            ),
    {
        let ghost s = self.stats@;
        let ghost th0 = self.adaptive_thresholds;
        let n = self.stats.len();
        let mut i: usize = 0;
        while i < n
            invariant
                n == self.stats.len(),
                i <= n,
                self.stats@ == s,
                self.config == old(self).config,
                self.optimal_hours@ == old(self).optimal_hours@,
                s == old(self).stats@,
                th0 == old(self).adaptive_thresholds,
                keys_unique(s),
                forall|k: int| 0 <= k < s.len() ==> totals_fit(#[trigger] s[k].1),
                self.adaptive_thresholds.spread_multiplier == if relaxes(s.take(i as int), "spread"@) {
                    grown(th0.spread_multiplier)
                } else {
                    th0.spread_multiplier
                },
                self.adaptive_thresholds.volatility_multiplier == if relaxes(
                    s.take(i as int),
                    "volatility"@,
                ) {
                    grown(th0.volatility_multiplier)
                } else {
                    th0.volatility_multiplier
                },
                self.adaptive_thresholds.correlation_range_expansion == if relaxes(
                    s.take(i as int),
                    "correlation"@,
                ) {
                    widened(th0.correlation_range_expansion)
                } else {
                    th0.correlation_range_expansion
                },
            decreases n - i,
        {
            let st = self.stats[i].1;
            let ghost ti = s.take(i as int);
            let ghost tn = s.take(i + 1);
            assert(tn == ti.push(s[i as int]));
            assert forall|k: Seq<char>| k != s[i as int].0@ implies (relaxes(tn, k) == relaxes(ti, k)) by {
                if relaxes(tn, k) {
                    let j = choose|j: int| 0 <= j < tn.len() && #[trigger] tn[j].0@ == k && needs_relaxing(tn[j].1);
                    assert(ti[j].0@ == k);
                }
                if relaxes(ti, k) {
                    let j = choose|j: int| 0 <= j < ti.len() && #[trigger] ti[j].0@ == k && needs_relaxing(ti[j].1);
                    assert(tn[j].0@ == k);
                }
            }
            assert(!relaxes(ti, s[i as int].0@)) by {
                if relaxes(ti, s[i as int].0@) {
                    let j = choose|j: int| 0 <= j < ti.len() && #[trigger] ti[j].0@ == s[i as int].0@ && needs_relaxing(ti[j].1);
                    assert(s[j].0@ == s[i as int].0@);
                }
            }
            assert(relaxes(tn, s[i as int].0@) == needs_relaxing(s[i as int].1)) by {
                if needs_relaxing(s[i as int].1) {
                    assert(tn[i as int].0@ == s[i as int].0@);
                }
                if relaxes(tn, s[i as int].0@) {
                    let j = choose|j: int| 0 <= j < tn.len() && #[trigger] tn[j].0@ == s[i as int].0@ && needs_relaxing(tn[j].1);
                    assert(j == i);
                }
            }
            proof {
                reveal_strlit("spread");
                reveal_strlit("volatility");
                reveal_strlit("correlation");
                assert("spread"@.len() == 6);
                assert("volatility"@.len() == 10);
                assert("correlation"@.len() == 11);
            }
            if st.times_applied >= 20 && !st.is_effective() {
                let name = self.stats[i].0.as_str();
                if str_eq(name, "spread") {
                    self.adaptive_thresholds.spread_multiplier = grow_multiplier(
                        self.adaptive_thresholds.spread_multiplier,
                    );
                } else if str_eq(name, "volatility") {
                    self.adaptive_thresholds.volatility_multiplier = grow_multiplier(
                        self.adaptive_thresholds.volatility_multiplier,
                    );
                } else if str_eq(name, "correlation") {
                    self.adaptive_thresholds.correlation_range_expansion = widen_band(
                        self.adaptive_thresholds.correlation_range_expansion,
                    );
                }
            }
            i = i + 1;
        }
        assert(s.take(n as int) == s);
    }

    /// Learns the optimal trading hours from (hour, won) pairs: the hours
    /// with at least five trades and a win rate above 55%, in increasing
    /// order.
    pub fn learn_optimal_hours(&mut self, trades: &[(u8, bool)])
        ensures
            final(self).config == old(self).config,
            final(self).stats@ == old(self).stats@,
            final(self).adaptive_thresholds == old(self).adaptive_thresholds,
            forall|h: u8| #[trigger] final(self).optimal_hours@.contains(h) <==> is_optimal_hour(trades@, h),
            forall|i: int, j: int|
                0 <= i < j < final(self).optimal_hours@.len() ==> final(self).optimal_hours@[i]
                    < final(self).optimal_hours@[j],
    {
        // (wins, total) of each hour seen
        let mut hour_stats: HashMap<u8, (usize, usize)> = HashMap::new();
        let mut i: usize = 0;
        while i < trades.len()
            invariant
                i <= trades.len(),
                forall|k: u8|
                    #[trigger] hour_counts(hour_stats@, k) == (
                        hour_wins(trades@.take(i as int), k),
                        hour_total(trades@.take(i as int), k),
                    ),
            decreases trades.len() - i,
        {
            let (hour, is_win) = trades[i];
            let ghost prev = trades@.take(i as int);
            let ghost next = trades@.take(i + 1);
            let ghost before = hour_stats@;
            assert(next.drop_last() == prev);
            assert(next.last() == trades@[i as int]);
            proof {
                lemma_hour_counts_bounded(prev, hour);
            }
            let (w, t) = match hour_stats.get(&hour) {
                Some(entry) => *entry,
                None => (0, 0),
            };
            assert(hour_counts(before, hour) == (hour_wins(prev, hour), hour_total(prev, hour)));
            assert(w == hour_wins(prev, hour) && t == hour_total(prev, hour));
            let won = if is_win {
                w + 1
            } else {
                w
            };
            hour_stats.insert(hour, (won, t + 1));
            assert forall|k: u8|
                #[trigger] hour_counts(hour_stats@, k) == (
                    hour_wins(next, k),
                    hour_total(next, k),
                ) by {
                assert(hour_counts(before, k) == (hour_wins(prev, k), hour_total(prev, k)));
                assert(hour_total(next, k) == hour_total(prev, k) + if next.last().0 == k {
                    1nat
                } else {
                    0nat
                });
                assert(hour_wins(next, k) == hour_wins(prev, k) + if next.last().0 == k
                    && next.last().1 {
                    1nat
                } else {
                    0nat
                });
            }
            i = i + 1;
        }
        assert(trades@.take(trades.len() as int) == trades@);
        let mut hours: Vec<u8> = Vec::new();
        let mut k: usize = 0;
        while k < 256
            invariant
                k <= 256,
                forall|m: u8|
                    #[trigger] hour_counts(hour_stats@, m) == (
                        hour_wins(trades@, m),
                        hour_total(trades@, m),
                    ),
                forall|m: u8| #[trigger] hours@.contains(m) <==> (m < k && is_optimal_hour(trades@, m)),
                forall|a: int, b: int| 0 <= a < b < hours@.len() ==> hours@[a] < hours@[b],
                forall|a: int| 0 <= a < hours@.len() ==> hours@[a] < k,
            decreases 256 - k,
        {
            let hk = k as u8;
            let ghost hours_before = hours;
            let (won, total) = match hour_stats.get(&hk) {
                Some(entry) => *entry,
                None => (0, 0),
            };
            assert(hour_counts(hour_stats@, hk) == (hour_wins(trades@, hk), hour_total(trades@, hk)));
            if total >= 5 && 100 * (won as u128) > 55 * (total as u128) {
                hours.push(hk);
            }
            assert forall|m: u8| #[trigger] hours@.contains(m) <==> (m < k + 1 && is_optimal_hour(trades@, m)) by {
                if m == hk {
                    if is_optimal_hour(trades@, m) {
                        assert(hours@[hours@.len() - 1] == m);
                    } else {
                        if hours@.contains(m) {
                            let a = choose|a: int| 0 <= a < hours@.len() && hours@[a] == m;
                            assert(hours_before@.contains(m));
                        }
                    }
                } else {
                    if hours@.contains(m) {
                        let a = choose|a: int| 0 <= a < hours@.len() && hours@[a] == m;
                        assert(hours_before@.contains(m));
                    }
                    if m < k + 1 && is_optimal_hour(trades@, m) {
                        assert(hours_before@.contains(m));
                        let a = choose|a: int| 0 <= a < hours_before@.len() && hours_before@[a] == m;
                        assert(hours@[a] == m);
                    }
                }
            }
            k = k + 1;
        }
        self.optimal_hours = hours;
    }
}

} // verus!
