use vstd::prelude::*;

verus! {

/// Crypto asset traded by the bot.
#[derive(Clone, Copy, Debug, PartialEq, Eq, Structural, Hash)]
pub enum Asset {
    BTC,
    ETH,
    SOL,
    XRP,
}

/// Length of a prediction window.
#[derive(Clone, Copy, Debug, PartialEq, Eq, Structural, Hash)]
pub enum Timeframe {
    Min15,
    Hour1,
}

/// Predicted direction of a window.
#[derive(Clone, Copy, Debug, PartialEq, Eq, Structural, Hash)]
pub enum Direction {
    Up,
    Down,
}

impl Default for Asset {
    fn default() -> (a: Self)
        ensures
            a == Asset::BTC,
    {
        Asset::BTC
    }
}

impl Default for Timeframe {
    fn default() -> (t: Self)
        ensures
            t == Timeframe::Min15,
    {
        Timeframe::Min15
    }
}

/// Length of a window of the given timeframe, in seconds.
pub open spec fn spec_duration_secs(tf: Timeframe) -> u64 {
    match tf {
        Timeframe::Min15 => 900,
        Timeframe::Hour1 => 3600,
    }
}

impl Timeframe {
    /// Length of this window, in seconds.
    pub fn duration_secs(&self) -> (secs: u64)
        ensures
            secs == spec_duration_secs(*self),
    {
        match self {
            Timeframe::Min15 => 900,
            Timeframe::Hour1 => 3600,
        }
    }
}

} // verus!
