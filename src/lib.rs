//! A price-guarded settlement engine: a bet is bundled with its funding and
//! fee transfers into one all-or-nothing group, and the group commits only when
//! a fresh market price beats the strike in the predicted direction.

pub mod guard;
pub mod oracle;
pub mod ledger;
pub mod risk;
pub mod predictor;
pub mod market;
pub mod cycle;

pub use predictor::get_prediction;
