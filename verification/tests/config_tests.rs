use polybot::config::{
    parse_model_type, CalibrationMethod, MLConfig, MLConfigConvertible, MLEngineConfig, ModelType,
};

fn sample_ml_config() -> MLConfig {
    MLConfig {
        enabled: true,
        model_type: "ensemble".to_string(),
        retrain_interval_trades: 50,
        min_samples_for_training: 30,
        use_microstructure: true,
        use_temporal_patterns: true,
        use_cross_asset: true,
        random_forest_weight: 400_000,
        gradient_boosting_weight: 350_000,
        logistic_regression_weight: 250_000,
        dynamic_weight_adjustment: true,
        max_spread_bps_15m: 150_000_000,
        max_spread_bps_1h: 200_000_000,
        min_depth_usdc: 0,
        max_volatility_5m: 30_000,
        optimal_hours_only: false,
    }
}

#[test]
fn test_ml_config_conversion() {
    let ml_config = sample_ml_config();
    let engine_config = ml_config.to_ml_engine_config();
    assert!(engine_config.enabled);
    assert!(matches!(engine_config.model_type, ModelType::Ensemble));
    assert_eq!(engine_config.min_confidence, 520_000);
}

#[test]
fn test_parse_model_types() {
    assert!(matches!(parse_model_type("ensemble"), ModelType::Ensemble));
    assert!(matches!(parse_model_type("random_forest"), ModelType::RandomForest));
    assert!(matches!(parse_model_type("gb"), ModelType::GradientBoosting));
    assert!(matches!(parse_model_type("LR"), ModelType::LogisticRegression));
}

#[test]
fn parse_model_type_accepts_every_spelling() {
    assert_eq!(parse_model_type("RandomForest"), ModelType::RandomForest);
    assert_eq!(parse_model_type("GRADIENT_BOOSTING"), ModelType::GradientBoosting);
    assert_eq!(parse_model_type("gradientboosting"), ModelType::GradientBoosting);
    assert_eq!(parse_model_type("logistic_regression"), ModelType::LogisticRegression);
    assert_eq!(parse_model_type("LogisticRegression"), ModelType::LogisticRegression);
    assert_eq!(parse_model_type("Ensemble"), ModelType::Ensemble);
}

#[test]
fn parse_model_type_falls_back_to_ensemble() {
    assert_eq!(parse_model_type("xgboost"), ModelType::Ensemble);
    assert_eq!(parse_model_type(""), ModelType::Ensemble);
    assert_eq!(parse_model_type(" lr"), ModelType::Ensemble);
}

#[test]
fn conversion_carries_settings_and_permissive_defaults() {
    let mut ml_config = sample_ml_config();
    ml_config.model_type = "GB".to_string();
    ml_config.optimal_hours_only = true;
    let c = ml_config.to_ml_engine_config();
    assert_eq!(c.model_type, ModelType::GradientBoosting);
    assert_eq!(c.training.retrain_interval_trades, 50);
    assert_eq!(c.training.min_samples_for_training, 30);
    assert_eq!(c.training.walk_forward_train_days, 30);
    assert_eq!(c.training.walk_forward_test_days, 7);
    assert_eq!(c.training.early_stopping_patience, 10);
    assert!(c.features.use_calibrator_features);
    assert_eq!(c.filters.max_spread_bps_15m, 150_000_000);
    assert_eq!(c.filters.max_spread_bps_1h, 200_000_000);
    assert_eq!(c.filters.min_btc_eth_correlation, 0);
    assert_eq!(c.filters.max_btc_eth_correlation, 1_000_000);
    assert_eq!(c.filters.max_window_progress, 900_000);
    assert_eq!(c.filters.min_time_to_close_minutes, 2_000_000);
    assert_eq!(c.filters.min_model_confidence, 520_000);
    assert!(c.filters.optimal_hours_only);
}

#[test]
fn missing_config_uses_engine_defaults() {
    let none: Option<MLConfig> = None;
    let c = none.to_ml_engine_config();
    let d = MLEngineConfig::default();
    assert_eq!(c.min_confidence, 550_000);
    assert_eq!(d.min_confidence, 550_000);
    assert_eq!(c.model_type, ModelType::Ensemble);
    assert_eq!(c.filters.min_depth_usdc, 5_000_000_000);
    assert!(c.filters.optimal_hours_only);
    assert_eq!(c.ensemble.random_forest_weight, 400_000);
    assert_eq!(c.ensemble.gradient_boosting_weight, 350_000);
    assert_eq!(c.ensemble.logistic_regression_weight, 250_000);
    let some = Some(sample_ml_config()).to_ml_engine_config();
    assert_eq!(some.min_confidence, 520_000);
}

#[test]
fn calibration_defaults_to_isotonic() {
    assert_eq!(CalibrationMethod::default(), CalibrationMethod::Isotonic);
}
