use polybot::startup::{
    parse_runtime_args, plan_startup_reset, HardResetOptions, ResetConfig, RuntimeArgs,
    RuntimeArgsError, StartupResetError,
};
use polybot::config::should_retrain;
use polybot::state_files::{
    join_data_path, live_position_contexts_path, paper_trading_state_path,
    prediction_counters_from_json, restore_prediction_counters,
};

fn args(list: &[&str]) -> Vec<String> {
    list.iter().map(|s| s.to_string()).collect()
}

fn reset_config(no_backup: bool) -> ResetConfig {
    ResetConfig {
        enabled_on_start: true,
        mode: "hard_all_history".to_string(),
        no_backup,
        delete_prices: true,
        delete_learning_state: false,
        delete_paper_state: true,
    }
}

#[test]
fn runtime_arguments() {
    let a = parse_runtime_args(&args(&[])).unwrap();
    assert_eq!((a.reset_mode, a.no_backup), (None, false));
    let a = parse_runtime_args(&args(&["--no-backup", "--reset", "hard-all-history"])).unwrap();
    assert_eq!((a.reset_mode.as_deref(), a.no_backup), (Some("hard-all-history"), true));
    let a = parse_runtime_args(&args(&["--reset=x", "--other", "--reset= y "])).unwrap();
    assert_eq!((a.reset_mode.as_deref(), a.no_backup), (Some(" y "), false));
    // The word after --reset is the mode, whatever it is.
    let a = parse_runtime_args(&args(&["--reset", "--no-backup"])).unwrap();
    assert_eq!((a.reset_mode.as_deref(), a.no_backup), (Some("--no-backup"), false));
}

#[test]
fn runtime_argument_errors() {
    assert_eq!(
        parse_runtime_args(&args(&["--reset"])).unwrap_err(),
        RuntimeArgsError::MissingResetMode
    );
    assert_eq!(
        parse_runtime_args(&args(&["--reset=  \t"])).unwrap_err(),
        RuntimeArgsError::MissingResetMode
    );
    assert_eq!(
        parse_runtime_args(&args(&["--reset="])).unwrap_err(),
        RuntimeArgsError::MissingResetMode
    );
    assert_eq!(
        RuntimeArgsError::MissingResetMode.message(),
        "--reset requires a mode (supported: hard-all-history)"
    );
}

#[test]
fn startup_reset_plans() {
    let none = RuntimeArgs { reset_mode: None, no_backup: true };
    assert!(matches!(plan_startup_reset(&none, &reset_config(false)), Ok(None)));
    let hard = RuntimeArgs { reset_mode: Some("Hard-All-History".to_string()), no_backup: false };
    let plan = plan_startup_reset(&hard, &reset_config(false)).unwrap().unwrap();
    assert_eq!(
        plan,
        HardResetOptions {
            no_backup: false,
            delete_prices: true,
            delete_learning_state: false,
            delete_paper_state: true,
        }
    );
    let plan = plan_startup_reset(&hard, &reset_config(true)).unwrap().unwrap();
    assert!(plan.no_backup);
    let bad = RuntimeArgs { reset_mode: Some("soft".to_string()), no_backup: false };
    match plan_startup_reset(&bad, &reset_config(false)) {
        Err(StartupResetError::UnsupportedResetMode(m)) => assert_eq!(m, "soft"),
        other => panic!("unexpected {:?}", other),
    }
}

#[test]
fn data_paths() {
    assert_eq!(live_position_contexts_path("data"), "data/live_position_contexts.json");
    assert_eq!(live_position_contexts_path("data/"), "data/live_position_contexts.json");
    assert_eq!(live_position_contexts_path(""), "live_position_contexts.json");
    assert_eq!(paper_trading_state_path("/var/bot"), "/var/bot/paper_trading_state.json");
    assert_eq!(join_data_path("a/b", "c.csv"), "a/b/c.csv");
}

#[test]
fn restored_counters() {
    assert_eq!(restore_prediction_counters(None, Some(3), None, None, None), None);
    assert_eq!(restore_prediction_counters(Some(0), Some(3), None, None, None), None);
    assert_eq!(restore_prediction_counters(Some(10), Some(6), Some(1), Some(4), Some(2)), Some((10, 6, 4)));
    assert_eq!(restore_prediction_counters(Some(10), None, Some(7), None, Some(2)), Some((10, 7, 2)));
    assert_eq!(restore_prediction_counters(Some(10), None, None, None, None), Some((10, 0, 10)));
    assert_eq!(restore_prediction_counters(Some(10), Some(4), None, None, None), Some((10, 4, 6)));
    assert_eq!(restore_prediction_counters(Some(5), Some(9), None, Some(8), None), Some((5, 5, 5)));
}

#[test]
fn retraining_schedule() {
    assert!(should_retrain(None, 0, 50));
    assert!(!should_retrain(Some(10), 59, 50));
    assert!(should_retrain(Some(10), 60, 50));
    assert!(!should_retrain(Some(100), 20, 1));
    assert!(should_retrain(Some(100), 20, 0));
}

#[test]
fn counters_from_json_use_the_saved_fields() {
    let json = r#"{"stats":{"total_trades":10,"predictions_correct":7,"predictions_incorrect":3}}"#;
    assert_eq!(prediction_counters_from_json(json), Some((10, 7, 3)));
}

#[test]
fn counters_from_json_fall_back_on_wins_and_losses() {
    let json = r#"{"stats":{"total_trades":10,"wins":6,"losses":4}}"#;
    assert_eq!(prediction_counters_from_json(json), Some((10, 6, 4)));
    let json = r#"{"stats":{"total_trades":10,"wins":6}}"#;
    assert_eq!(prediction_counters_from_json(json), Some((10, 6, 4)));
    let json = r#"{"stats":{"total_trades":5,"predictions_correct":9,"losses":8}}"#;
    assert_eq!(prediction_counters_from_json(json), Some((5, 5, 5)));
}

#[test]
fn counters_from_json_need_recorded_trades() {
    assert_eq!(prediction_counters_from_json(r#"{"stats":{"total_trades":0,"wins":3}}"#), None);
    assert_eq!(prediction_counters_from_json(r#"{"stats":{"total_trades":5.0}}"#), None);
    assert_eq!(prediction_counters_from_json(r#"{"stats":{"wins":3}}"#), None);
    assert_eq!(prediction_counters_from_json(r#"{"other":{"total_trades":4}}"#), None);
    assert_eq!(prediction_counters_from_json("not json"), None);
}

#[test]
fn counters_from_json_skip_fields_that_are_not_unsigned() {
    let json = r#"{"stats":{"total_trades":4,"predictions_correct":-1,"wins":"3"}}"#;
    assert_eq!(prediction_counters_from_json(json), Some((4, 0, 4)));
}
