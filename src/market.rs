//! The market-watch rule: RSI momentum combined with news sentiment.
//!
//! RSI is in hundredths of a point (`3500` is 35.00); sentiment is a compound
//! score in thousandths (`-1000..=1000`).

use vstd::prelude::*;

verus! {

/// What the market watcher does in one round.
#[derive(Debug, Clone, Copy, PartialEq, Eq, Structural)]
pub enum MarketCall {
    /// A calm market: a range bet, where the broker offers one.
    Range,
    /// Oversold with good news: buy a call.
    Call,
    /// Overbought with bad news: buy a put.
    Put,
    /// No setup: do nothing.
    Hold,
}

/// The rule: RSI strictly between 45 and 55 with |sentiment| under 0.2 is a range
/// market; else RSI under 35 with sentiment over 0.3 calls; else RSI over 65
/// with sentiment under -0.3 puts; else hold.
pub open spec fn market_rule(rsi: u64, sentiment: i64) -> MarketCall {
    if 4500 < rsi < 5500 && -200 < sentiment < 200 {
        MarketCall::Range
    } else if rsi < 3500 && sentiment > 300 {
        MarketCall::Call
    } else if rsi > 6500 && sentiment < -300 {
        MarketCall::Put
    } else {
        MarketCall::Hold
    }
}

/// Decides one round from the latest RSI and the news sentiment.
pub fn market_call(rsi: u64, sentiment: i64) -> (r: MarketCall)
    ensures
        r == market_rule(rsi, sentiment),
{
    if rsi > 4500 && rsi < 5500 && sentiment > -200 && sentiment < 200 {
        MarketCall::Range
    } else if rsi < 3500 && sentiment > 300 {
        MarketCall::Call
    } else if rsi > 6500 && sentiment < -300 {
        MarketCall::Put
    } else {
        MarketCall::Hold
    }
}

} // verus!
