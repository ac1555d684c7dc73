//! The win guard: a pure verdict on a price against a strike.

use vstd::prelude::*;
use crate::oracle::PriceQuote;

verus! {

/// The side a guarded bet is placed on.
#[derive(Debug, Clone, Copy, PartialEq, Eq, Structural)]
pub enum Direction {
    Up,
    Down,
}

/// The guard's verdict when the price beats the strike.
#[derive(Debug, Clone, Copy, PartialEq, Eq, Structural)]
pub struct Win;

/// The guard's verdict otherwise: the enclosing group must abort as a whole.
#[derive(Debug, Clone, Copy, PartialEq, Eq, Structural)]
pub struct NotWinning;

/// What a group's guard check is fixed to when the group is built.
#[derive(Debug, Clone, Copy, PartialEq, Eq, Structural)]
pub struct GuardParameters {
    pub asset_id: u64,
    pub direction: Direction,
    pub strike_price: u64,
}

/// True iff `price` strictly beats `strike` in direction `d`; a tie never does.
pub open spec fn beats(d: Direction, strike: u64, price: u64) -> bool {
    match d {
        Direction::Up => price > strike,
        Direction::Down => price < strike,
    }
}

/// Judges a quote against a strike in the given direction.
pub fn evaluate(direction: Direction, strike_price: u64, quote: &PriceQuote) -> (r: Result<
    Win,
    NotWinning,
>)
    ensures
        r is Ok <==> beats(direction, strike_price, quote.price),
{
    let wins = match direction {
        Direction::Up => quote.price > strike_price,
        Direction::Down => quote.price < strike_price,
    };
    if wins {
        Ok(Win)
    } else {
        Err(NotWinning)
    }
}

/// A guard passes on a quote of its own asset whose price beats its strike.
pub open spec fn guard_passes(g: GuardParameters, quote: PriceQuote) -> bool {
    g.asset_id == quote.asset_id && beats(g.direction, g.strike_price, quote.price)
}

impl GuardParameters {
    /// Checks this guard against a quote; a quote of another asset never passes.
    pub fn check(&self, quote: &PriceQuote) -> (r: Result<Win, NotWinning>)
        ensures
            r is Ok <==> guard_passes(*self, *quote),
    {
        if self.asset_id != quote.asset_id {
            return Err(NotWinning);
        }
        evaluate(self.direction, self.strike_price, quote)
    }
}

/// Every direction, strike and price: the guard wins exactly when the price
/// strictly beats the strike that way, and a price equal to the strike loses.
pub proof fn lemma_guard_verdict(d: Direction, strike: u64, price: u64)
    ensures
        beats(d, strike, price) <==> (d == Direction::Up && price > strike) || (d
            == Direction::Down && price < strike),
        price == strike ==> !beats(d, strike, price),
{
}

} // verus!
