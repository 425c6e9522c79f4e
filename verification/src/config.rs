use vstd::prelude::*;
use crate::filters::FilterConfig;
use crate::text::{ascii_lower, chars_of, eq_str, to_ascii_lowercase};

verus! {

/// Fractional quantities of the library (weights, probabilities, prices,
/// volatilities, spreads in basis points, minutes) are fixed-point integers
/// counting millionths of the unit: `1.0` is `SCALE`.
pub const SCALE: i64 = 1_000_000;

/// Family of prediction model.
#[derive(Clone, Copy, Debug, PartialEq, Eq, Structural)]
pub enum ModelType {
    RandomForest,
    GradientBoosting,
    LogisticRegression,
    Ensemble,
}

/// Which feature groups the engine uses.
#[derive(Clone, Copy, Debug, PartialEq, Eq, Structural)]
pub struct FeatureConfig {
    pub use_microstructure: bool,
    pub use_temporal_patterns: bool,
    pub use_cross_asset: bool,
    pub use_calibrator_features: bool,
}

/// Weights of the ensemble members (fixed point, see [`SCALE`]).
#[derive(Clone, Copy, Debug, PartialEq, Eq, Structural)]
pub struct EnsembleConfig {
    pub random_forest_weight: i64,
    pub gradient_boosting_weight: i64,
    pub logistic_regression_weight: i64,
    pub dynamic_weight_adjustment: bool,
}

/// Retraining schedule.
#[derive(Clone, Copy, Debug, PartialEq, Eq, Structural)]
pub struct TrainingConfig {
    pub retrain_interval_trades: usize,
    pub min_samples_for_training: usize,
    pub walk_forward_train_days: i64,
    pub walk_forward_test_days: i64,
    pub early_stopping_patience: usize,
}

/// Whole configuration of the learning engine.
#[derive(Clone, Copy, Debug)]
pub struct MLEngineConfig {
    pub enabled: bool,
    pub model_type: ModelType,
    pub features: FeatureConfig,
    pub ensemble: EnsembleConfig,
    pub filters: FilterConfig,
    pub training: TrainingConfig,
    /// Minimum confidence of a signal (fixed point).
    pub min_confidence: i64,
}

/// The engine's settings as they are read from the configuration file
/// (fractional values in fixed point).
#[derive(Clone, Debug)]
pub struct MLConfig {
    pub enabled: bool,
    pub model_type: String,
    pub retrain_interval_trades: usize,
    pub min_samples_for_training: usize,
    pub use_microstructure: bool,
    pub use_temporal_patterns: bool,
    pub use_cross_asset: bool,
    pub random_forest_weight: i64,
    pub gradient_boosting_weight: i64,
    pub logistic_regression_weight: i64,
    pub dynamic_weight_adjustment: bool,
    pub max_spread_bps_15m: i64,
    pub max_spread_bps_1h: i64,
    pub min_depth_usdc: i64,
    pub max_volatility_5m: i64,
    pub optimal_hours_only: bool,
}

/// Calibration method of the probability calibrator.
#[derive(Clone, Copy, Debug, PartialEq, Eq, Structural)]
pub enum CalibrationMethod {
    Isotonic,
    Platt,
    Uncalibrated,
}

impl Default for CalibrationMethod {
    fn default() -> (m: Self)
        ensures
            m == CalibrationMethod::Isotonic,
    {
        CalibrationMethod::Isotonic
    }
}

/// Model family named by a (case-insensitive) configuration word; unknown
/// words select the ensemble.
pub open spec fn spec_model_type_of(word: Seq<char>) -> ModelType {
    let w = ascii_lower(word);
    if w == "random_forest"@ || w == "randomforest"@ {
        ModelType::RandomForest
    } else if w == "gradient_boosting"@ || w == "gradientboosting"@ || w == "gb"@ {
        ModelType::GradientBoosting
    } else if w == "logistic_regression"@ || w == "logisticregression"@ || w == "lr"@ {
        ModelType::LogisticRegression
    } else {
        ModelType::Ensemble
    }
}

/// Model family named by a configuration word. Letters are compared without
/// regard to ASCII case; since none of the known words holds a letter that a
/// non-ASCII character lower-cases to, this is the same as comparing after
/// full Unicode lower-casing.
pub fn parse_model_type(s: &str) -> (m: ModelType)
    ensures
        m == spec_model_type_of(s@),
{
    let w = to_ascii_lowercase(&chars_of(s));
    if eq_str(&w, "random_forest") || eq_str(&w, "randomforest") {
        ModelType::RandomForest
    } else if eq_str(&w, "gradient_boosting") || eq_str(&w, "gradientboosting") || eq_str(
        &w,
        "gb",
    ) {
        ModelType::GradientBoosting
    } else if eq_str(&w, "logistic_regression") || eq_str(&w, "logisticregression") || eq_str(
        &w,
        "lr",
    ) {
        ModelType::LogisticRegression
    } else {
        ModelType::Ensemble
    }
}

/// The engine's default configuration.
pub open spec fn default_engine_config() -> MLEngineConfig {
    MLEngineConfig {
        enabled: true,
        model_type: ModelType::Ensemble,
        features: FeatureConfig {
            use_microstructure: true,
            use_temporal_patterns: true,
            use_cross_asset: true,
            use_calibrator_features: true,
        },
        ensemble: EnsembleConfig {
            random_forest_weight: 400_000,
            gradient_boosting_weight: 350_000,
            logistic_regression_weight: 250_000,
            dynamic_weight_adjustment: true,
        },
        filters: FilterConfig {
            max_spread_bps_15m: 100_000_000,
            max_spread_bps_1h: 150_000_000,
            min_depth_usdc: 5_000_000_000,
            max_volatility_5m: 20_000,
            min_volatility_5m: 1_000,
            optimal_hours_only: true,
            min_btc_eth_correlation: 600_000,
            max_btc_eth_correlation: 950_000,
            max_window_progress: 700_000,
            min_time_to_close_minutes: 3_000_000,
            min_model_confidence: 550_000,
        },
        training: TrainingConfig {
            retrain_interval_trades: 50,
            min_samples_for_training: 30,
            walk_forward_train_days: 30,
            walk_forward_test_days: 7,
            early_stopping_patience: 10,
        },
        min_confidence: 550_000,
    }
}

impl Default for MLEngineConfig {
    fn default() -> (c: Self)
        ensures
            c == default_engine_config(),
    {
        MLEngineConfig {
            enabled: true,
            model_type: ModelType::Ensemble,
            features: FeatureConfig {
                use_microstructure: true,
                use_temporal_patterns: true,
                use_cross_asset: true,
                use_calibrator_features: true,
            },
            ensemble: EnsembleConfig {
                random_forest_weight: 400_000,
                gradient_boosting_weight: 350_000,
                logistic_regression_weight: 250_000,
                dynamic_weight_adjustment: true,
            },
            filters: FilterConfig {
                max_spread_bps_15m: 100_000_000,
                max_spread_bps_1h: 150_000_000,
                min_depth_usdc: 5_000_000_000,
                max_volatility_5m: 20_000,
                min_volatility_5m: 1_000,
                optimal_hours_only: true,
                min_btc_eth_correlation: 600_000,
                max_btc_eth_correlation: 950_000,
                max_window_progress: 700_000,
                min_time_to_close_minutes: 3_000_000,
                min_model_confidence: 550_000,
            },
            training: TrainingConfig {
                retrain_interval_trades: 50,
                min_samples_for_training: 30,
                walk_forward_train_days: 30,
                walk_forward_test_days: 7,
                early_stopping_patience: 10,
            },
            min_confidence: 550_000,
        }
    }
}

/// Engine configuration made from the configuration file's settings: the
/// settings it names are carried over (the model family parsed from its
/// word), the others take permissive defaults.
pub open spec fn spec_engine_config_from(c: MLConfig) -> MLEngineConfig {
    MLEngineConfig {
        enabled: c.enabled,
        model_type: spec_model_type_of(c.model_type@),
        features: FeatureConfig {
            use_microstructure: c.use_microstructure,
            use_temporal_patterns: c.use_temporal_patterns,
            use_cross_asset: c.use_cross_asset,
            use_calibrator_features: true,
        },
        ensemble: EnsembleConfig {
            random_forest_weight: c.random_forest_weight,
            gradient_boosting_weight: c.gradient_boosting_weight,
            logistic_regression_weight: c.logistic_regression_weight,
            dynamic_weight_adjustment: c.dynamic_weight_adjustment,
        },
        filters: FilterConfig {
            max_spread_bps_15m: c.max_spread_bps_15m,
            max_spread_bps_1h: c.max_spread_bps_1h,
            min_depth_usdc: c.min_depth_usdc,
            max_volatility_5m: c.max_volatility_5m,
            min_volatility_5m: 1_000,
            optimal_hours_only: c.optimal_hours_only,
            min_btc_eth_correlation: 0,
            max_btc_eth_correlation: 1_000_000,
            max_window_progress: 900_000,
            min_time_to_close_minutes: 2_000_000,
            min_model_confidence: 520_000,
        },
        training: TrainingConfig {
            retrain_interval_trades: c.retrain_interval_trades,
            min_samples_for_training: c.min_samples_for_training,
            walk_forward_train_days: 30,
            walk_forward_test_days: 7,
            early_stopping_patience: 10,
        },
        min_confidence: 520_000,
    }
}

/// Conversion of configuration-file settings into an engine configuration.
pub trait MLConfigConvertible {
    fn to_ml_engine_config(&self) -> MLEngineConfig;
}

impl MLConfigConvertible for MLConfig {
    fn to_ml_engine_config(&self) -> (e: MLEngineConfig)
        ensures
            e == spec_engine_config_from(*self),
    {
        MLEngineConfig {
            enabled: self.enabled,
            model_type: parse_model_type(self.model_type.as_str()),
            features: FeatureConfig {
                use_microstructure: self.use_microstructure,
                use_temporal_patterns: self.use_temporal_patterns,
                use_cross_asset: self.use_cross_asset,
                use_calibrator_features: true,
            },
            ensemble: EnsembleConfig {
                random_forest_weight: self.random_forest_weight,
                gradient_boosting_weight: self.gradient_boosting_weight,
                logistic_regression_weight: self.logistic_regression_weight,
                dynamic_weight_adjustment: self.dynamic_weight_adjustment,
            },
            filters: FilterConfig {
                max_spread_bps_15m: self.max_spread_bps_15m,
                max_spread_bps_1h: self.max_spread_bps_1h,
                min_depth_usdc: self.min_depth_usdc,
                max_volatility_5m: self.max_volatility_5m,
                min_volatility_5m: 1_000,
                optimal_hours_only: self.optimal_hours_only,
                min_btc_eth_correlation: 0,
                max_btc_eth_correlation: 1_000_000,
                max_window_progress: 900_000,
                min_time_to_close_minutes: 2_000_000,
                min_model_confidence: 520_000,
            },
            training: TrainingConfig {
                retrain_interval_trades: self.retrain_interval_trades,
                min_samples_for_training: self.min_samples_for_training,
                walk_forward_train_days: 30,
                walk_forward_test_days: 7,
                early_stopping_patience: 10,
            },
            min_confidence: 520_000,
        }
    }
}

impl MLConfigConvertible for Option<MLConfig> {
    fn to_ml_engine_config(&self) -> (e: MLEngineConfig)
        ensures
            e == match self {
                Some(c) => spec_engine_config_from(*c),
                None => default_engine_config(),
            },
    {
        match self {
            Some(config) => config.to_ml_engine_config(),
            None => MLEngineConfig::default(),
        }
    }
}

/// Retraining is due when the engine never retrained, or when at least
/// `interval` predictions were made since the prediction count recorded at
/// the last retraining (read as an unsigned count).
pub open spec fn spec_should_retrain(
    last_retraining: Option<i64>,
    total_predictions: usize,
    interval: usize,
) -> bool {
    match last_retraining {
        None => true,
        Some(last) => {
            let since: int = if total_predictions >= (last as usize) {
                total_predictions - (last as usize)
            } else {
                0
            };
            since >= interval
        },
    }
}

/// Whether the engine should retrain.
pub fn should_retrain(last_retraining: Option<i64>, total_predictions: usize, interval: usize) -> (b:
    bool)
    ensures
        b == spec_should_retrain(last_retraining, total_predictions, interval),
{
    match last_retraining {
        None => true,
        Some(last) => {
            let since = total_predictions.saturating_sub(last as usize);
            since >= interval
        },
    }
}

} // verus!
