use vstd::prelude::*;

verus! {

/// Path of `file_name` inside the directory `data_dir`, joined as a Unix
/// path is: a `/` is put between them unless `data_dir` is empty or already
/// ends with one.
pub open spec fn spec_join_path(data_dir: Seq<char>, file_name: Seq<char>) -> Seq<char> {
    if data_dir.len() == 0 || data_dir.last() == '/' {
        data_dir + file_name
    } else {
        data_dir + seq!['/'] + file_name
    }
}

/// Joins a (relative) file name to a directory.
pub fn join_data_path(data_dir: &str, file_name: &str) -> (p: String)
    ensures
        p@ == spec_join_path(data_dir@, file_name@),
{
    let mut p = data_dir.to_owned();
    let n = data_dir.unicode_len();
    if n > 0 && data_dir.get_char(n - 1) != '/' {
        p.append("/");
        proof {
            reveal_strlit("/");
            assert("/"@ =~= seq!['/']);
        }
    }
    p.append(file_name);
    p
}

/// Name of the file that keeps the contexts of open live positions.
pub open spec fn live_contexts_file_name() -> Seq<char> {
    "live_position_contexts.json"@
}

/// Path of the file that keeps the contexts of open live positions.
pub fn live_position_contexts_path(data_dir: &str) -> (p: String)
    ensures
        p@ == spec_join_path(data_dir@, live_contexts_file_name()),
{
    join_data_path(data_dir, "live_position_contexts.json")
}

/// Name of the paper-trading state file.
pub open spec fn paper_state_file_name() -> Seq<char> {
    "paper_trading_state.json"@
}

/// Path of the paper-trading state file.
pub fn paper_trading_state_path(data_dir: &str) -> (p: String)
    ensures
        p@ == spec_join_path(data_dir@, paper_state_file_name()),
{
    join_data_path(data_dir, "paper_trading_state.json")
}

/// First of two optional values that is present.
pub open spec fn or_opt(a: Option<u64>, b: Option<u64>) -> Option<u64> {
    match a {
        Some(x) => Some(x),
        None => b,
    }
}

/// The smaller of two counts.
pub open spec fn min_usize(a: usize, b: usize) -> usize {
    if a <= b {
        a
    } else {
        b
    }
}

/// Prediction counters (total, correct, incorrect) restored from the saved
/// statistics: none when no trade was recorded; correct predictions fall back
/// on wins, incorrect ones on losses and then on the trades not counted as
/// correct; both are capped by the total.
pub open spec fn spec_restored_counters(
    total_trades: Option<u64>,
    predictions_correct: Option<u64>,
    wins: Option<u64>,
    predictions_incorrect: Option<u64>,
    losses: Option<u64>,
) -> Option<(usize, usize, usize)> {
    let total = (match total_trades {
        Some(t) => t,
        None => 0,
    }) as usize;
    if total == 0 {
        None
    } else {
        let correct = (match or_opt(predictions_correct, wins) {
            Some(c) => c,
            None => 0,
        }) as usize;
        let incorrect = (match or_opt(predictions_incorrect, losses) {
            Some(i) => i,
            None => (if total >= correct {
                total - correct
            } else {
                0
            }) as u64,
        }) as usize;
        Some((total, min_usize(correct, total), min_usize(incorrect, total)))
    }
}

/// Restores the prediction counters from the fields of the saved statistics
/// (each present only when it holds an unsigned integer).
pub fn restore_prediction_counters(
    total_trades: Option<u64>,
    predictions_correct: Option<u64>,
    wins: Option<u64>,
    predictions_incorrect: Option<u64>,
    losses: Option<u64>,
) -> (r: Option<(usize, usize, usize)>)
    ensures
        r == spec_restored_counters(
            total_trades,
            predictions_correct,
            wins,
            predictions_incorrect,
            losses,
        ),
{
    let total = (match total_trades {
        Some(t) => t,
        None => 0,
    }) as usize;
    if total == 0 {
        return None;
    }
    let correct_raw = match predictions_correct {
        Some(c) => c,
        None => match wins {
            Some(w) => w,
            None => 0,
        },
    };
    let correct = correct_raw as usize;
    let incorrect_raw = match predictions_incorrect {
        Some(i) => i,
        None => match losses {
            Some(l) => l,
            None => (if total >= correct {
                total - correct
            } else {
                0
            }) as u64,
        },
    };
    let incorrect = incorrect_raw as usize;
    let c = if correct <= total {
        correct
    } else {
        total
    };
    let i = if incorrect <= total {
        incorrect
    } else {
        total
    };
    Some((total, c, i))
}

/// The five fields of the `stats` object of a saved paper-trading state, as
/// serde_json reads them from the file's text: `total_trades`,
/// `predictions_correct`, `wins`, `predictions_incorrect`, `losses`, each
/// present only when it holds an unsigned integer; none when the text is not
/// JSON or holds no `stats`.
pub uninterp spec fn json_stats_fields(text: Seq<char>) -> Option<
    (Option<u64>, Option<u64>, Option<u64>, Option<u64>, Option<u64>),
>;

/// Calls `serde_json::from_str` into a `serde_json::Value`, then `get` of
/// `stats` and, in it, `get` and `as_u64` of each of the five counter fields.
/// Claims that the result depends on the text alone (it is named
/// `json_stats_fields`); what JSON it accepts is left unsaid.
#[verifier::external_body]
fn parse_stats_fields(json: &str) -> (f: Option<
    (Option<u64>, Option<u64>, Option<u64>, Option<u64>, Option<u64>),
>)
    ensures
        f == json_stats_fields(json@),
{
    let value: serde_json::Value = serde_json::from_str(json).ok()?;
    let stats = value.get("stats")?;
    Some((
        stats.get("total_trades").and_then(serde_json::Value::as_u64),
        stats.get("predictions_correct").and_then(serde_json::Value::as_u64),
        stats.get("wins").and_then(serde_json::Value::as_u64),
        stats.get("predictions_incorrect").and_then(serde_json::Value::as_u64),
        stats.get("losses").and_then(serde_json::Value::as_u64),
    ))
}

/// Prediction counters (total, correct, incorrect) restored from the text of
/// a saved paper-trading state.
pub fn prediction_counters_from_json(json: &str) -> (r: Option<(usize, usize, usize)>)
    ensures
        r == (match json_stats_fields(json@) {
            Some((t, c, w, i, l)) => spec_restored_counters(t, c, w, i, l),
            None => None,
        }),
{
    match parse_stats_fields(json) {
        Some((t, c, w, i, l)) => restore_prediction_counters(t, c, w, i, l),
        None => None,
    }
}

} // verus!
