use vstd::prelude::*;

verus! {

/// Milliseconds in a day.
pub const DAY_MS: i64 = 86_400_000;

/// Positions among the first `n` timestamps of those before `cutoff`, in
/// order.
pub open spec fn positions_before(ts: Seq<i64>, cutoff: int, n: int) -> Seq<usize>
    decreases n,
{
    if n <= 0 {
        Seq::empty()
    } else if ts[n - 1] < cutoff {
        positions_before(ts, cutoff, n - 1).push((n - 1) as usize)
    } else {
        positions_before(ts, cutoff, n - 1)
    }
}

/// Positions among the first `n` timestamps of those at or after `cutoff`,
/// in order.
pub open spec fn positions_from(ts: Seq<i64>, cutoff: int, n: int) -> Seq<usize>
    decreases n,
{
    if n <= 0 {
        Seq::empty()
    } else if ts[n - 1] >= cutoff {
        positions_from(ts, cutoff, n - 1).push((n - 1) as usize)
    } else {
        positions_from(ts, cutoff, n - 1)
    }
}

/// End of the training period: `train_days` days after the first sample.
pub open spec fn time_split_cutoff(ts: Seq<i64>, train_days: i64) -> int {
    ts[0] + train_days * DAY_MS
}

/// Splits samples, given by their timestamps (Unix ms) in dataset order,
/// into those of the first `train_days` days after the first sample
/// (training) and the later ones (testing); each side lists positions in
/// dataset order. With no sample both sides are empty.
pub fn split_by_time_positions(timestamps: &Vec<i64>, train_days: i64) -> (r: (
    Vec<usize>,
    Vec<usize>,
))
    requires
        timestamps@.len() > 0 ==> i64::MIN <= train_days * DAY_MS <= i64::MAX,
        timestamps@.len() > 0 ==> i64::MIN <= time_split_cutoff(timestamps@, train_days)
            <= i64::MAX,
    ensures
        timestamps@.len() == 0 ==> r.0@.len() == 0 && r.1@.len() == 0,
        timestamps@.len() > 0 ==> r.0@ == positions_before(
            timestamps@,
            time_split_cutoff(timestamps@, train_days),
            timestamps@.len() as int,
        ) && r.1@ == positions_from(
            timestamps@,
            time_split_cutoff(timestamps@, train_days),
            timestamps@.len() as int,
        ),
{
    let mut train: Vec<usize> = Vec::new();
    let mut test: Vec<usize> = Vec::new();
    if timestamps.len() == 0 {
        return (train, test);
    }
    let cutoff = timestamps[0] + train_days * DAY_MS;
    let mut i: usize = 0;
    while i < timestamps.len()
        invariant
            i <= timestamps@.len(),
            cutoff == time_split_cutoff(timestamps@, train_days),
            train@ == positions_before(timestamps@, cutoff as int, i as int),
            test@ == positions_from(timestamps@, cutoff as int, i as int),
        decreases timestamps@.len() - i,
    {
        if timestamps[i] < cutoff {
            train.push(i);
        } else {
            test.push(i);
        }
        i = i + 1;
    }
    (train, test)
}

} // verus!
