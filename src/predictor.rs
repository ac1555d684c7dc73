//! Trade-direction predictors: decision rules over indicator readings.
//!
//! Prices and bands share one fixed-point scale; RSI values and confidences are
//! in hundredths of a point (`3000` is 30.00).

use vstd::prelude::*;
use crate::guard::Direction;

verus! {

/// The fewest prices a prediction is made from.
pub const MIN_HISTORY: usize = 20;

/// A predicted direction, or none.
#[derive(Debug, Clone, Copy, PartialEq, Eq, Structural)]
pub enum Signal {
    Call,
    Put,
    Neutral,
}

/// A direction with a confidence in hundredths of a percent, `0..=10000`.
#[derive(Debug, Clone, Copy, PartialEq, Eq, Structural)]
pub struct Prediction {
    pub signal: Signal,
    pub confidence: u64,
}

/// The latest values of the indicators over a price history.
#[derive(Debug, Clone, Copy, PartialEq, Eq, Structural)]
pub struct IndicatorReading {
    pub last_price: i64,
    /// Relative strength index, in hundredths (`0..=10000`).
    pub last_rsi: u64,
    pub lower_band: i64,
    pub upper_band: i64,
}

/// The mean-reversion predictor.
#[derive(Debug, Clone, Copy, PartialEq, Eq, Structural)]
pub struct AIPredictor;

/// The prediction that asks for no action at all.
pub open spec fn no_prediction() -> Prediction {
    Prediction { signal: Signal::Neutral, confidence: 0 }
}

/// The mean-reversion rule: a price at or under the lower band with RSI at most
/// 30 calls, one at or over the upper band with RSI at least 70 puts, each with
/// confidence 85 plus the RSI's distance past its bound, at most 99.
pub open spec fn ai_prediction(history_len: usize, reading: Option<IndicatorReading>) -> Prediction {
    match reading {
        Some(r) if history_len >= MIN_HISTORY => if r.last_price <= r.lower_band && r.last_rsi
            <= 3000 {
            Prediction {
                signal: Signal::Call,
                confidence: if 3000 - r.last_rsi + 8500 < 9900 {
                    (3000 - r.last_rsi + 8500) as u64
                } else {
                    9900
                },
            }
        } else if r.last_price >= r.upper_band && r.last_rsi >= 7000 {
            Prediction {
                signal: Signal::Put,
                confidence: if r.last_rsi - 7000 + 8500 < 9900 {
                    (r.last_rsi - 7000 + 8500) as u64
                } else {
                    9900
                },
            }
        } else {
            Prediction { signal: Signal::Neutral, confidence: 5000 }
        },
        _ => no_prediction(),
    }
}

/// The band-and-momentum extreme rule: at or under the lower band with RSI at
/// most 28 calls at 95.8, at or over the upper band with RSI at least 72 puts at
/// 97.1, anything else is neutral at 50.
pub open spec fn extreme_prediction(history_len: usize, reading: Option<IndicatorReading>) -> Prediction {
    match reading {
        Some(r) if history_len >= MIN_HISTORY => if r.last_price <= r.lower_band && r.last_rsi
            <= 2800 {
            Prediction { signal: Signal::Call, confidence: 9580 }
        } else if r.last_price >= r.upper_band && r.last_rsi >= 7200 {
            Prediction { signal: Signal::Put, confidence: 9710 }
        } else {
            Prediction { signal: Signal::Neutral, confidence: 5000 }
        },
        _ => no_prediction(),
    }
}

/// The direction a signal bets on, if any.
pub open spec fn direction_of(s: Signal) -> Option<Direction> {
    match s {
        Signal::Call => Some(Direction::Up),
        Signal::Put => Some(Direction::Down),
        Signal::Neutral => None,
    }
}

impl Signal {
    /// The direction this signal bets on, if any.
    pub fn direction(&self) -> (r: Option<Direction>)
        ensures
            r == direction_of(*self),
    {
        match self {
            Signal::Call => Some(Direction::Up),
            Signal::Put => Some(Direction::Down),
            Signal::Neutral => None,
        }
    }
}

impl AIPredictor {
    /// Predicts from a history of `history_len` prices and, when it could be
    /// computed, the indicators' latest reading; a history shorter than
    /// `MIN_HISTORY` gives a neutral prediction with no confidence.
    pub fn get_prediction(history_len: usize, reading: Option<IndicatorReading>) -> (r: Prediction)
        ensures
            r == ai_prediction(history_len, reading),
            history_len < MIN_HISTORY ==> r == no_prediction(),
            r.confidence <= 9900,
    {
        match reading {
            Some(rd) => {
                if history_len < MIN_HISTORY {
                    return Prediction { signal: Signal::Neutral, confidence: 0 };
                }
                if rd.last_price <= rd.lower_band && rd.last_rsi <= 3000 {
                    let c = 3000 - rd.last_rsi + 8500;
                    Prediction { signal: Signal::Call, confidence: if c < 9900 { c } else { 9900 } }
                } else if rd.last_price >= rd.upper_band && rd.last_rsi >= 7000 {
                    let past = rd.last_rsi - 7000;
                    let c = if past < 1400 { past + 8500 } else { 9900 };
                    Prediction { signal: Signal::Put, confidence: c }
                } else {
                    Prediction { signal: Signal::Neutral, confidence: 5000 }
                }
            },
            None => Prediction { signal: Signal::Neutral, confidence: 0 },
        }
    }
}

/// Predicts from a history of `history_len` prices and, when it could be
/// computed, the indicators' latest reading, by the extreme-reversal rule; a
/// history shorter than `MIN_HISTORY` gives a neutral prediction with no confidence.
pub fn get_prediction(history_len: usize, reading: Option<IndicatorReading>) -> (r: Prediction)
    ensures
        r == extreme_prediction(history_len, reading),
        history_len < MIN_HISTORY ==> r == no_prediction(),
{
    match reading {
        Some(rd) => {
            if history_len < MIN_HISTORY {
                Prediction { signal: Signal::Neutral, confidence: 0 }
            } else if rd.last_price <= rd.lower_band && rd.last_rsi <= 2800 {
                Prediction { signal: Signal::Call, confidence: 9580 }
            } else if rd.last_price >= rd.upper_band && rd.last_rsi >= 7200 {
                Prediction { signal: Signal::Put, confidence: 9710 }
            } else {
                Prediction { signal: Signal::Neutral, confidence: 5000 }
            }
        },
        None => Prediction { signal: Signal::Neutral, confidence: 0 },
    }
}

} // verus!
