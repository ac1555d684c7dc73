//! The cycle controller: the decisions of one fetch-decide-submit-await cycle.
//!
//! The controller does no I/O. Its driver fetches, submits and polls, and hands
//! each result back as an event; the controller answers with what to do next.
//! Deciding and constructing happen within `on_fetched`, so a cycle moves
//! `Idle -> Fetching -> (Idle | Submitting -> AwaitingOutcome -> Idle)`.

use vstd::prelude::*;
use crate::guard::GuardParameters;
use crate::ledger::{AtomicOperationGroup, guarded_bet_ops};
use crate::oracle::{OracleError, PriceQuote};
use crate::predictor::{Prediction, Signal, direction_of};
use crate::risk::{RiskManager, StakeDecision, loss_after, offered_stake};

verus! {

/// What the engine is configured with; nothing here is fixed by the engine.
#[derive(Debug, Clone, Copy, PartialEq, Eq, Structural)]
pub struct EngineConfig {
    pub asset_id: u64,
    /// A prediction is acted on only when its confidence is above this.
    pub confidence_threshold: u64,
    /// The relay's inclusion fee, in ten-thousandths of a unit.
    pub priority_fee: u64,
    pub wallet: usize,
    pub settlement: usize,
    pub fee_account: usize,
    pub cycle_interval: u64,
    pub outcome_timeout: u64,
}

/// Where the controller stands in a cycle.
#[derive(Debug, Clone, Copy, PartialEq, Eq, Structural)]
pub enum Phase {
    Idle,
    Fetching,
    Submitting,
    AwaitingOutcome,
}

/// Why a cycle ended in error.
#[derive(Debug, Clone, Copy, PartialEq, Eq, Structural)]
pub enum CycleError {
    Stale,
    Unavailable,
    UnknownAsset,
    SubmissionRejected,
    RelayUnavailable,
    Timeout,
}

/// How a cycle ended.
#[derive(Debug, Clone, Copy, PartialEq, Eq, Structural)]
pub enum CycleOutcome {
    Committed,
    Reverted,
    Skipped,
    Error(CycleError),
}

/// What is reported of each cycle, whatever its outcome.
#[derive(Debug, Clone, Copy, PartialEq, Eq, Structural)]
pub struct CycleRecord {
    pub cycle_id: u64,
    pub prediction: Prediction,
    pub stake: Option<StakeDecision>,
    pub guard: Option<GuardParameters>,
    pub outcome: CycleOutcome,
}

/// Why the relay did not take a group.
#[derive(Debug, Clone, Copy, PartialEq, Eq, Structural)]
pub enum SubmitError {
    Rejected,
    Unavailable,
}

/// What the relay reports of a submitted group.
#[derive(Debug, Clone, Copy, PartialEq, Eq, Structural)]
pub enum RelayStatus {
    /// Included; `pnl` is the profit (or, negative, the loss) it realised, in
    /// ten-thousandths of a unit.
    Committed { pnl: i64 },
    Reverted,
    Unknown,
}

/// What the controller asks for after the fetch.
#[derive(Debug)]
pub enum FetchStep {
    /// The cycle is over.
    Done(CycleRecord),
    /// Submit this group to the relay.
    Submit(AtomicOperationGroup),
}

/// The cycle in flight once a group has been built.
#[derive(Debug, Clone, Copy, PartialEq, Eq, Structural)]
pub struct Pending {
    pub prediction: Prediction,
    pub stake: StakeDecision,
    pub guard: GuardParameters,
}

/// The controller's state, as contracts see it.
pub struct ControllerView {
    pub phase: Phase,
    pub cycle_id: u64,
    pub shutdown: bool,
    pub pending: Option<Pending>,
}

/// Runs cycles one at a time.
pub struct CycleController {
    phase: Phase,
    cycle_id: u64,
    shutdown: bool,
    pending: Option<Pending>,
}

impl View for CycleController {
    type V = ControllerView;

    closed spec fn view(&self) -> ControllerView {
        ControllerView {
            phase: self.phase,
            cycle_id: self.cycle_id,
            shutdown: self.shutdown,
            pending: self.pending,
        }
    }
}

/// The oracle's error, as a cycle error.
pub open spec fn fetch_error(e: OracleError) -> CycleError {
    match e {
        OracleError::Stale => CycleError::Stale,
        OracleError::Unavailable => CycleError::Unavailable,
        OracleError::UnknownAsset => CycleError::UnknownAsset,
    }
}

/// A prediction that asks for action: a direction, with confidence above the threshold.
pub open spec fn acts_on(confidence_threshold: u64, p: Prediction) -> bool {
    p.signal != Signal::Neutral && p.confidence > confidence_threshold
}

/// Whether a prediction asks for action: it has a direction, and its confidence
/// is above `confidence_threshold`.
pub fn actionable(confidence_threshold: u64, prediction: Prediction) -> (r: bool)
    ensures
        r == acts_on(confidence_threshold, prediction),
{
    prediction.signal != Signal::Neutral && prediction.confidence > confidence_threshold
}

/// What the fetched data lead to: the bet to build, or how the cycle ends.
pub open spec fn planned(
    config: EngineConfig,
    prediction: Prediction,
    quote: Result<PriceQuote, OracleError>,
    risk: RiskManager,
    balance: u64,
) -> Result<Pending, CycleOutcome> {
    match quote {
        Err(e) => Err(CycleOutcome::Error(fetch_error(e))),
        Ok(q) => if !acts_on(config.confidence_threshold, prediction) {
            Err(CycleOutcome::Skipped)
        } else {
            match offered_stake(risk, balance) {
                None => Err(CycleOutcome::Skipped),
                Some(stake) => Ok(
                    Pending {
                        prediction,
                        stake,
                        guard: GuardParameters {
                            asset_id: q.asset_id,
                            direction: direction_of(prediction.signal)->Some_0,
                            strike_price: q.price,
                        },
                    },
                ),
            }
        },
    }
}

/// The record of a cycle that built a group.
pub open spec fn record_of(cycle_id: u64, p: Pending, outcome: CycleOutcome) -> CycleRecord {
    CycleRecord {
        cycle_id,
        prediction: p.prediction,
        stake: Some(p.stake),
        guard: Some(p.guard),
        outcome,
    }
}

/// The number of the cycle after `id`, wrapping to 0.
pub open spec fn next_cycle_id(id: u64) -> u64 {
    if id == u64::MAX {
        0
    } else {
        (id + 1) as u64
    }
}

impl EngineConfig {
    /// How long to sleep after a cycle that took `elapsed`, so that cycles start
    /// a fixed interval apart: the interval less the time spent, or nothing.
    pub fn sleep_after(&self, elapsed: u64) -> (r: u64)
        ensures
            r == (if elapsed < self.cycle_interval {
                self.cycle_interval - elapsed
            } else {
                0
            }),
    {
        if elapsed < self.cycle_interval {
            self.cycle_interval - elapsed
        } else {
            0
        }
    }
}

impl ControllerView {
    /// A group is in flight exactly while submitting or awaiting its outcome.
    pub open spec fn wf(&self) -> bool {
        (self.phase == Phase::Submitting || self.phase == Phase::AwaitingOutcome)
            <==> self.pending is Some
    }
}

impl CycleController {
    /// An idle controller, before its first cycle.
    pub fn new() -> (r: Self)
        ensures
            r@.wf(),
            r@.phase == Phase::Idle,
            r@.cycle_id == 0,
            !r@.shutdown,
            r@.pending is None,
    {
        CycleController { phase: Phase::Idle, cycle_id: 0, shutdown: false, pending: None }
    }

    /// The current phase.
    pub fn phase(&self) -> (r: Phase)
        ensures
            r == self@.phase,
    {
        self.phase
    }

    /// The number of the current (or last) cycle.
    pub fn cycle_id(&self) -> (r: u64)
        ensures
            r == self@.cycle_id,
    {
        self.cycle_id
    }

    /// Whether a shutdown was asked for.
    pub fn shutdown_requested(&self) -> (r: bool)
        ensures
            r == self@.shutdown,
    {
        self.shutdown
    }

    /// Asks the controller to stop; it is honoured at the start of the next
    /// cycle, never in the middle of one.
    pub fn request_shutdown(&mut self)
        ensures
            final(self)@.shutdown,
            final(self)@.phase == old(self)@.phase,
            final(self)@.cycle_id == old(self)@.cycle_id,
            final(self)@.pending == old(self)@.pending,
    {
        self.shutdown = true;
    }

    /// Starts a cycle from `Idle`: false, with nothing changed, once a shutdown
    /// was asked for; otherwise the next cycle begins by fetching.
    pub fn begin_cycle(&mut self) -> (r: bool)
        requires
            old(self)@.wf(),
            old(self)@.phase == Phase::Idle,
        ensures
            final(self)@.wf(),
            r == !old(self)@.shutdown,
            !r ==> final(self)@ == old(self)@,
            r ==> final(self)@ == (ControllerView {
                phase: Phase::Fetching,
                cycle_id: next_cycle_id(old(self)@.cycle_id),
                ..old(self)@
            }),
    {
        if self.shutdown {
            return false;
        }
        self.cycle_id = if self.cycle_id == u64::MAX {
            0
        } else {
            self.cycle_id + 1
        };
        self.phase = Phase::Fetching;
        true
    }

    /// Decides on what was fetched: a quote error ends the cycle in that error;
    /// a neutral or unconfident prediction, or a risk budget that offers no
    /// stake, skips it; otherwise the guarded group is built and handed back
    /// for submission, guarded at the quote's price in the predicted direction.
    /// `balance` is the wallet's balance in whole units, for sizing the stake.
    pub fn on_fetched(
        &mut self,
        config: &EngineConfig,
        prediction: Prediction,
        quote: Result<PriceQuote, OracleError>,
        risk: &RiskManager,
        balance: u64,
    ) -> (r: FetchStep)
        requires
            old(self)@.wf(),
            old(self)@.phase == Phase::Fetching,
            risk.wf(),
        ensures
            final(self)@.wf(),
            final(self)@.cycle_id == old(self)@.cycle_id,
            final(self)@.shutdown == old(self)@.shutdown,
            match planned(*config, prediction, quote, *risk, balance) {
                Err(outcome) => final(self)@.phase == Phase::Idle && final(self)@.pending is None
                    && r == FetchStep::Done(
                    CycleRecord {
                        cycle_id: old(self)@.cycle_id,
                        prediction,
                        stake: None,
                        guard: None,
                        outcome,
                    },
                ),
                Ok(p) => {
                    &&& final(self)@.phase == Phase::Submitting
                    &&& final(self)@.pending == Some(p)
                    &&& r matches FetchStep::Submit(g)
                    &&& g.ops@ == guarded_bet_ops(
                        p.guard,
                        config.wallet,
                        config.settlement,
                        p.stake.amount,
                        config.fee_account,
                        config.priority_fee,
                    )
                },
            },
            quote is Ok && (prediction.signal == Signal::Neutral || prediction.confidence
                <= config.confidence_threshold || risk.current_loss >= risk.daily_loss_limit)
                ==> (r matches FetchStep::Done(rec) && rec.outcome == CycleOutcome::Skipped),
            prediction.signal == Signal::Neutral || prediction.confidence
                <= config.confidence_threshold || risk.current_loss >= risk.daily_loss_limit
                ==> final(self)@.phase == Phase::Idle && final(self)@.pending is None,
    {
        let q = match quote {
            Err(e) => {
                let err = match e {
                    OracleError::Stale => CycleError::Stale,
                    OracleError::Unavailable => CycleError::Unavailable,
                    OracleError::UnknownAsset => CycleError::UnknownAsset,
                };
                self.phase = Phase::Idle;
                return FetchStep::Done(
                    CycleRecord {
                        cycle_id: self.cycle_id,
                        prediction,
                        stake: None,
                        guard: None,
                        outcome: CycleOutcome::Error(err),
                    },
                );
            },
            Ok(q) => q,
        };
        let skipped = CycleRecord {
            cycle_id: self.cycle_id,
            prediction,
            stake: None,
            guard: None,
            outcome: CycleOutcome::Skipped,
        };
        if !actionable(config.confidence_threshold, prediction) {
            self.phase = Phase::Idle;
            return FetchStep::Done(skipped);
        }
        let direction = match prediction.signal.direction() {
            None => {
                self.phase = Phase::Idle;
                return FetchStep::Done(skipped);
            },
            Some(d) => d,
        };
        let stake = match risk.stake_decision(balance) {
            None => {
                self.phase = Phase::Idle;
                return FetchStep::Done(skipped);
            },
            Some(s) => s,
        };
        let guard = GuardParameters { asset_id: q.asset_id, direction, strike_price: q.price };
        let group = AtomicOperationGroup::guarded_bet(
            guard,
            config.wallet,
            config.settlement,
            stake.amount,
            config.fee_account,
            config.priority_fee,
        );
        self.pending = Some(Pending { prediction, stake, guard });
        self.phase = Phase::Submitting;
        FetchStep::Submit(group)
    }

    /// Takes the relay's answer to a submission: once taken, the outcome is
    /// awaited; a refusal ends the cycle in error, to be retried next cycle
    /// with a fresh quote and a fresh group.
    pub fn on_submitted(&mut self, result: Result<(), SubmitError>) -> (r: Option<CycleRecord>)
        requires
            old(self)@.wf(),
            old(self)@.phase == Phase::Submitting,
        ensures
            final(self)@.wf(),
            final(self)@.cycle_id == old(self)@.cycle_id,
            final(self)@.shutdown == old(self)@.shutdown,
            match result {
                Ok(()) => r is None && final(self)@.phase == Phase::AwaitingOutcome
                    && final(self)@.pending == old(self)@.pending,
                Err(e) => final(self)@.phase == Phase::Idle && final(self)@.pending is None
                    && r == Some(
                    record_of(
                        old(self)@.cycle_id,
                        old(self)@.pending->Some_0,
                        CycleOutcome::Error(
                            if e == SubmitError::Rejected {
                                CycleError::SubmissionRejected
                            } else {
                                CycleError::RelayUnavailable
                            },
                        ),
                    ),
                ),
            },
    {
        let p = match self.pending {
            Some(p) => p,
            None => {
                return None;
            },
        };
        match result {
            Ok(()) => {
                self.phase = Phase::AwaitingOutcome;
                None
            },
            Err(e) => {
                let err = match e {
                    SubmitError::Rejected => CycleError::SubmissionRejected,
                    SubmitError::Unavailable => CycleError::RelayUnavailable,
                };
                self.phase = Phase::Idle;
                self.pending = None;
                Some(
                    CycleRecord {
                        cycle_id: self.cycle_id,
                        prediction: p.prediction,
                        stake: Some(p.stake),
                        guard: Some(p.guard),
                        outcome: CycleOutcome::Error(err),
                    },
                )
            },
        }
    }

    /// Takes the relay's status of the group after waiting `waited` for it.
    /// A commit books its profit or loss on the risk counter, once; a revert
    /// changes nothing; an unknown status keeps waiting until the timeout, and
    /// then ends the cycle in error with the risk counter untouched.
    pub fn on_status(
        &mut self,
        config: &EngineConfig,
        status: RelayStatus,
        waited: u64,
        risk: &mut RiskManager,
    ) -> (r: Option<CycleRecord>)
        requires
            old(self)@.wf(),
            old(self)@.phase == Phase::AwaitingOutcome,
        ensures
            final(self)@.wf(),
            final(self)@.cycle_id == old(self)@.cycle_id,
            final(self)@.shutdown == old(self)@.shutdown,
            match status {
                RelayStatus::Committed { pnl } => final(risk).current_loss == loss_after(
                    old(risk).current_loss,
                    pnl,
                ) && *final(risk) == (RiskManager {
                    current_loss: final(risk).current_loss,
                    ..*old(risk)
                }),
                _ => *final(risk) == *old(risk),
            },
            match status {
                RelayStatus::Unknown => if waited < config.outcome_timeout {
                    r is None && final(self)@ == old(self)@
                } else {
                    final(self)@.phase == Phase::Idle && final(self)@.pending is None && r == Some(
                        record_of(
                            old(self)@.cycle_id,
                            old(self)@.pending->Some_0,
                            CycleOutcome::Error(CycleError::Timeout),
                        ),
                    )
                },
                _ => final(self)@.phase == Phase::Idle && final(self)@.pending is None && r == Some(
                    record_of(
                        old(self)@.cycle_id,
                        old(self)@.pending->Some_0,
                        if status is Reverted {
                            CycleOutcome::Reverted
                        } else {
                            CycleOutcome::Committed
                        },
                    ),
                ),
            },
    {
        let p = match self.pending {
            Some(p) => p,
            None => {
                return None;
            },
        };
        let outcome = match status {
            RelayStatus::Committed { pnl } => {
                risk.record_pnl(pnl);
                CycleOutcome::Committed
            },
            RelayStatus::Reverted => CycleOutcome::Reverted,
            RelayStatus::Unknown => {
                if waited < config.outcome_timeout {
                    return None;
                }
                CycleOutcome::Error(CycleError::Timeout)
            },
        };
        self.phase = Phase::Idle;
        self.pending = None;
        Some(
            CycleRecord {
                cycle_id: self.cycle_id,
                prediction: p.prediction,
                stake: Some(p.stake),
                guard: Some(p.guard),
                outcome,
            },
        )
    }
}

/// Once the day's loss has reached its limit, no cycle builds a group: trading
/// is refused, and whatever was predicted or quoted, the cycle ends without
/// a submission.
pub proof fn lemma_exhausted_budget_never_submits(
    config: EngineConfig,
    prediction: Prediction,
    quote: Result<PriceQuote, OracleError>,
    risk: RiskManager,
    balance: u64,
)
    requires
        risk.current_loss >= risk.daily_loss_limit,
    ensures
        offered_stake(risk, balance) is None,
        planned(config, prediction, quote, risk, balance) is Err,
        quote is Ok ==> planned(config, prediction, quote, risk, balance) == Err::<
            Pending,
            CycleOutcome,
        >(CycleOutcome::Skipped),
{
}

/// A neutral prediction, or one whose confidence is not above the threshold,
/// never leads to building or submitting a group, whatever the quote and the
/// risk budget.
pub proof fn lemma_no_signal_never_submits(
    config: EngineConfig,
    prediction: Prediction,
    quote: Result<PriceQuote, OracleError>,
    risk: RiskManager,
    balance: u64,
)
    requires
        prediction.signal == Signal::Neutral || prediction.confidence
            <= config.confidence_threshold,
    ensures
        planned(config, prediction, quote, risk, balance) is Err,
        quote is Ok ==> planned(config, prediction, quote, risk, balance) == Err::<
            Pending,
            CycleOutcome,
        >(CycleOutcome::Skipped),
{
}

} // verus!
