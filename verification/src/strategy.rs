//! Dispatch between the two strategy engines. The engines themselves are the
//! caller's: every operation takes, for each engine, the call that performs
//! it, and the contracts say which call runs, with which arguments, and what
//! becomes of the engine.
use vstd::prelude::*;
use crate::types::{Asset, Timeframe};

verus! {

/// Outcome of a closed trade.
#[derive(Clone, Copy, Debug, PartialEq, Eq, Structural)]
pub enum TradeResult {
    Win,
    Loss,
}

/// The strategy in use: the calibrated indicator engine (`V2`) or the
/// learning engine (`V3`).
pub enum ActiveStrategy<V2, V3> {
    V2(V2),
    V3(V3),
}

/// Which engine a strategy runs.
#[derive(Clone, Copy, Debug, PartialEq, Eq, Structural)]
pub enum StrategyVersion {
    V2,
    V3,
}

/// The trade was won.
pub open spec fn is_win(r: TradeResult) -> bool {
    r matches TradeResult::Win
}

/// Confidence the learning engine records for a closed trade (0.6, fixed
/// point).
pub open spec fn v3_record_confidence() -> i64 {
    600_000
}

/// Edge the learning engine records for a closed trade (0.05, fixed point).
pub open spec fn v3_record_edge() -> i64 {
    50_000
}

impl<V2, V3> ActiveStrategy<V2, V3> {
    /// Which engine runs.
    pub fn version(&self) -> (v: StrategyVersion)
        ensures
            v == (match self {
                ActiveStrategy::V2(_) => StrategyVersion::V2,
                ActiveStrategy::V3(_) => StrategyVersion::V3,
            }),
    {
        match self {
            ActiveStrategy::V2(_) => StrategyVersion::V2,
            ActiveStrategy::V3(_) => StrategyVersion::V3,
        }
    }

    /// Feeds the latest features to the running engine and returns the signal
    /// it generates, if any.
    pub fn process<F, G>(
        &mut self,
        features: &F,
        on_v2: impl FnOnce(&mut V2, &F) -> Option<G>,
        on_v3: impl FnOnce(&mut V3, &F) -> Option<G>,
    ) -> (signal: Option<G>)
        requires
            forall|e: &mut V2| on_v2.requires((e, features)),
            forall|e: &mut V3| on_v3.requires((e, features)),
        ensures
            match (*old(self), *final(self)) {
                (ActiveStrategy::V2(a), ActiveStrategy::V2(b)) => exists|e: &mut V2|
                    *e == a && *final(e) == b && on_v2.ensures((e, features), signal),
                (ActiveStrategy::V3(a), ActiveStrategy::V3(b)) => exists|e: &mut V3|
                    *e == a && *final(e) == b && on_v3.ensures((e, features), signal),
                _ => false,
            },
    {
        match self {
            ActiveStrategy::V2(e) => on_v2(e, features),
            ActiveStrategy::V3(e) => on_v3(e, features),
        }
    }

    /// Why the running engine filtered out its last signal, if it did.
    pub fn last_filter_reason(
        &self,
        on_v2: impl Fn(&V2) -> Option<String>,
        on_v3: impl Fn(&V3) -> Option<String>,
    ) -> (reason: Option<String>)
        requires
            forall|e: &V2| on_v2.requires((e,)),
            forall|e: &V3| on_v3.requires((e,)),
        ensures
            match self {
                ActiveStrategy::V2(e) => on_v2.ensures((e,), reason),
                ActiveStrategy::V3(e) => on_v3.ensures((e,), reason),
            },
    {
        match self {
            ActiveStrategy::V2(e) => on_v2(e),
            ActiveStrategy::V3(e) => on_v3(e),
        }
    }

    /// The running engine's calibrator state, as exported by it.
    pub fn export_calibrator_state_v2<S>(
        &self,
        on_v2: impl Fn(&V2) -> S,
        on_v3: impl Fn(&V3) -> S,
    ) -> (state: S)
        requires
            forall|e: &V2| on_v2.requires((e,)),
            forall|e: &V3| on_v3.requires((e,)),
        ensures
            match self {
                ActiveStrategy::V2(e) => on_v2.ensures((e,), state),
                ActiveStrategy::V3(e) => on_v3.ensures((e,), state),
            },
    {
        match self {
            ActiveStrategy::V2(e) => on_v2(e),
            ActiveStrategy::V3(e) => on_v3(e),
        }
    }

    /// Hands a saved calibrator state to the running engine.
    pub fn import_calibrator_state_v2<S>(
        &mut self,
        stats: S,
        on_v2: impl FnOnce(&mut V2, S),
        on_v3: impl FnOnce(&mut V3, S),
    )
        requires
            forall|e: &mut V2, s: S| on_v2.requires((e, s)),
            forall|e: &mut V3, s: S| on_v3.requires((e, s)),
        ensures
            match (*old(self), *final(self)) {
                (ActiveStrategy::V2(a), ActiveStrategy::V2(b)) => exists|e: &mut V2|
                    *e == a && *final(e) == b && on_v2.ensures((e, stats), ()),
                (ActiveStrategy::V3(a), ActiveStrategy::V3(b)) => exists|e: &mut V3|
                    *e == a && *final(e) == b && on_v3.ensures((e, stats), ()),
                _ => false,
            },
    {
        match self {
            ActiveStrategy::V2(e) => on_v2(e, stats),
            ActiveStrategy::V3(e) => on_v3(e, stats),
        }
    }

    /// Records a closed trade of a market with the indicators that signalled
    /// it. The indicator engine gets the result as is; the learning engine
    /// gets whether it was a win, with confidence 0.6 and edge 0.05.
    pub fn record_trade_with_indicators_for_market(
        &mut self,
        asset: Asset,
        timeframe: Timeframe,
        indicators: &[String],
        result: TradeResult,
        on_v2: impl FnOnce(&mut V2, Asset, Timeframe, &[String], TradeResult),
        on_v3: impl FnOnce(&mut V3, Asset, Timeframe, &[String], bool, i64, i64),
    )
        requires
            forall|e: &mut V2| on_v2.requires((e, asset, timeframe, indicators, result)),
            forall|e: &mut V3|
                on_v3.requires(
                    (
                        e,
                        asset,
                        timeframe,
                        indicators,
                        is_win(result),
                        v3_record_confidence(),
                        v3_record_edge(),
                    ),
                ),
        ensures
            match (*old(self), *final(self)) {
                (ActiveStrategy::V2(a), ActiveStrategy::V2(b)) => exists|e: &mut V2|
                    *e == a && *final(e) == b && on_v2.ensures(
                        (e, asset, timeframe, indicators, result),
                        (),
                    ),
                (ActiveStrategy::V3(a), ActiveStrategy::V3(b)) => exists|e: &mut V3|
                    *e == a && *final(e) == b && on_v3.ensures(
                        (
                            e,
                            asset,
                            timeframe,
                            indicators,
                            is_win(result),
                            v3_record_confidence(),
                            v3_record_edge(),
                        ),
                        (),
                    ),
                _ => false,
            },
    {
        match self {
            ActiveStrategy::V2(e) => on_v2(e, asset, timeframe, indicators, result),
            ActiveStrategy::V3(e) => {
                let won = match result {
                    TradeResult::Win => true,
                    _ => false,
                };
                assert(won == is_win(result));
                assert(on_v3.requires(
                    (
                        e,
                        asset,
                        timeframe,
                        indicators,
                        is_win(result),
                        v3_record_confidence(),
                        v3_record_edge(),
                    ),
                ));
                on_v3(e, asset, timeframe, indicators, won, 600_000, 50_000)
            },
        }
    }

    /// Records how a prediction of probability `p_pred` (fixed point) turned
    /// out. Only the indicator engine records it; the learning engine keeps
    /// its own account and is left unchanged.
    pub fn record_prediction_outcome_for_market(
        &mut self,
        asset: Asset,
        timeframe: Timeframe,
        p_pred: i64,
        is_win: bool,
        on_v2: impl FnOnce(&mut V2, Asset, Timeframe, i64, bool),
    )
        requires
            forall|e: &mut V2| on_v2.requires((e, asset, timeframe, p_pred, is_win)),
        ensures
            match (*old(self), *final(self)) {
                (ActiveStrategy::V2(a), ActiveStrategy::V2(b)) => exists|e: &mut V2|
                    *e == a && *final(e) == b && on_v2.ensures(
                        (e, asset, timeframe, p_pred, is_win),
                        (),
                    ),
                (ActiveStrategy::V3(a), ActiveStrategy::V3(b)) => a == b,
                _ => false,
            },
    {
        match self {
            ActiveStrategy::V2(e) => on_v2(e, asset, timeframe, p_pred, is_win),
            ActiveStrategy::V3(_) => {},
        }
    }

    /// Number of trades the running engine's calibrator has learnt from.
    pub fn calibrator_total_trades(
        &self,
        on_v2: impl Fn(&V2) -> usize,
        on_v3: impl Fn(&V3) -> usize,
    ) -> (n: usize)
        requires
            forall|e: &V2| on_v2.requires((e,)),
            forall|e: &V3| on_v3.requires((e,)),
        ensures
            match self {
                ActiveStrategy::V2(e) => on_v2.ensures((e,), n),
                ActiveStrategy::V3(e) => on_v3.ensures((e,), n),
            },
    {
        match self {
            ActiveStrategy::V2(e) => on_v2(e),
            ActiveStrategy::V3(e) => on_v3(e),
        }
    }

    /// Whether the running engine's calibrator has enough trades.
    pub fn is_calibrated(&self, on_v2: impl Fn(&V2) -> bool, on_v3: impl Fn(&V3) -> bool) -> (b:
        bool)
        requires
            forall|e: &V2| on_v2.requires((e,)),
            forall|e: &V3| on_v3.requires((e,)),
        ensures
            match self {
                ActiveStrategy::V2(e) => on_v2.ensures((e,), b),
                ActiveStrategy::V3(e) => on_v3.ensures((e,), b),
            },
    {
        match self {
            ActiveStrategy::V2(e) => on_v2(e),
            ActiveStrategy::V3(e) => on_v3(e),
        }
    }
}

/// Settings a new strategy starts with: the engine chosen by the
/// configuration and its minimum signal confidence (fixed point). The
/// indicator engine's confidence is clamped to [0.01, 0.99]; the learning
/// engine takes it as configured.
pub open spec fn spec_initial_settings(use_v3_strategy: bool, min_confidence: i64) -> (
    StrategyVersion,
    i64,
) {
    if use_v3_strategy {
        (StrategyVersion::V3, min_confidence)
    } else if min_confidence < 10_000 {
        (StrategyVersion::V2, 10_000)
    } else if min_confidence > 990_000 {
        (StrategyVersion::V2, 990_000)
    } else {
        (StrategyVersion::V2, min_confidence)
    }
}

/// Chooses the engine to start and its minimum signal confidence.
pub fn initial_strategy_settings(use_v3_strategy: bool, min_confidence: i64) -> (s: (
    StrategyVersion,
    i64,
))
    ensures
        s == spec_initial_settings(use_v3_strategy, min_confidence),
{
    if use_v3_strategy {
        (StrategyVersion::V3, min_confidence)
    } else if min_confidence < 10_000 {
        (StrategyVersion::V2, 10_000)
    } else if min_confidence > 990_000 {
        (StrategyVersion::V2, 990_000)
    } else {
        (StrategyVersion::V2, min_confidence)
    }
}

} // verus!
