use guarded_settlement::cycle::{
    actionable, CycleController, CycleError, CycleOutcome, EngineConfig, FetchStep, Phase, RelayStatus, SubmitError,
};
use guarded_settlement::get_prediction;
use guarded_settlement::guard::{Direction, GuardParameters};
use guarded_settlement::ledger::Operation;
use guarded_settlement::market::{market_call, MarketCall};
use guarded_settlement::oracle::{OracleError, PriceQuote};
use guarded_settlement::predictor::{AIPredictor, IndicatorReading, Prediction, Signal};
use guarded_settlement::risk::RiskManager;

fn reading(last_price: i64, last_rsi: u64) -> Option<IndicatorReading> {
    Some(IndicatorReading { last_price, last_rsi, lower_band: 100, upper_band: 200 })
}

fn config() -> EngineConfig {
    EngineConfig {
        asset_id: 1,
        confidence_threshold: 8800,
        priority_fee: 3,
        wallet: 0,
        settlement: 1,
        fee_account: 2,
        cycle_interval: 60,
        outcome_timeout: 10,
    }
}

fn quote() -> Result<PriceQuote, OracleError> {
    Ok(PriceQuote { asset_id: 1, price: 100, observed_at: 5 })
}

fn call(confidence: u64) -> Prediction {
    Prediction { signal: Signal::Call, confidence }
}

#[test]
fn short_history_is_neutral_and_skipped() {
    let prices = [1.10, 1.11, 1.09, 1.08, 1.07, 1.06, 1.05];
    let p = AIPredictor::get_prediction(prices.len(), None);
    assert_eq!(p, Prediction { signal: Signal::Neutral, confidence: 0 });
    assert_eq!(get_prediction(prices.len(), reading(50, 1000)), Prediction { signal: Signal::Neutral, confidence: 0 });
    let mut c = CycleController::new();
    assert!(c.begin_cycle());
    let risk = RiskManager::new(1_000_000, 1000);
    match c.on_fetched(&config(), p, quote(), &risk, 1000) {
        FetchStep::Done(rec) => assert_eq!(rec.outcome, CycleOutcome::Skipped),
        FetchStep::Submit(_) => panic!("a neutral prediction was submitted"),
    }
    assert_eq!(c.phase(), Phase::Idle);
}

#[test]
fn ai_predictor_confidence_formula() {
    assert_eq!(AIPredictor::get_prediction(20, reading(90, 2000)), call(9500));
    assert_eq!(AIPredictor::get_prediction(20, reading(100, 3000)), call(8500));
    assert_eq!(AIPredictor::get_prediction(20, reading(90, 0)), call(9900));
    assert_eq!(AIPredictor::get_prediction(20, reading(250, 7500)), Prediction { signal: Signal::Put, confidence: 9000 });
    assert_eq!(AIPredictor::get_prediction(20, reading(250, 9900)), Prediction { signal: Signal::Put, confidence: 9900 });
    assert_eq!(AIPredictor::get_prediction(20, reading(150, 2000)), Prediction { signal: Signal::Neutral, confidence: 5000 });
    assert_eq!(AIPredictor::get_prediction(30, None), Prediction { signal: Signal::Neutral, confidence: 0 });
}

#[test]
fn extreme_predictor_rules() {
    assert_eq!(get_prediction(20, reading(100, 2800)), call(9580));
    assert_eq!(get_prediction(20, reading(100, 2900)), Prediction { signal: Signal::Neutral, confidence: 5000 });
    assert_eq!(get_prediction(25, reading(200, 7200)), Prediction { signal: Signal::Put, confidence: 9710 });
    assert_eq!(get_prediction(19, reading(200, 7200)), Prediction { signal: Signal::Neutral, confidence: 0 });
}

#[test]
fn actionable_needs_direction_and_confidence() {
    assert!(actionable(8800, call(8801)));
    assert!(!actionable(8800, call(8800)));
    assert!(!actionable(0, Prediction { signal: Signal::Neutral, confidence: 9900 }));
    assert!(actionable(9000, Prediction { signal: Signal::Put, confidence: 9710 }));
}

#[test]
fn signal_directions() {
    assert_eq!(Signal::Call.direction(), Some(Direction::Up));
    assert_eq!(Signal::Put.direction(), Some(Direction::Down));
    assert_eq!(Signal::Neutral.direction(), None);
}

#[test]
fn market_rule_branches() {
    assert_eq!(market_call(5000, 100), MarketCall::Range);
    assert_eq!(market_call(5000, -199), MarketCall::Range);
    assert_eq!(market_call(4500, 0), MarketCall::Hold);
    assert_eq!(market_call(3000, 301), MarketCall::Call);
    assert_eq!(market_call(3000, 300), MarketCall::Hold);
    assert_eq!(market_call(7000, -301), MarketCall::Put);
    assert_eq!(market_call(6500, -900), MarketCall::Hold);
}

#[test]
fn exhausted_budget_goes_straight_to_idle() {
    let mut risk = RiskManager::new(100, 1000);
    risk.current_loss = 100;
    assert!(!risk.can_trade());
    let mut c = CycleController::new();
    assert!(c.begin_cycle());
    match c.on_fetched(&config(), call(9580), quote(), &risk, 1000) {
        FetchStep::Done(rec) => {
            assert_eq!(rec.outcome, CycleOutcome::Skipped);
            assert_eq!(rec.guard, None);
        }
        FetchStep::Submit(_) => panic!("submitted past the loss limit"),
    }
    assert_eq!(c.phase(), Phase::Idle);
}

#[test]
fn sub_threshold_confidence_is_skipped() {
    let risk = RiskManager::new(1_000_000, 1000);
    let mut c = CycleController::new();
    assert!(c.begin_cycle());
    match c.on_fetched(&config(), call(8800), quote(), &risk, 1000) {
        FetchStep::Done(rec) => assert_eq!(rec.outcome, CycleOutcome::Skipped),
        FetchStep::Submit(_) => panic!("submitted below the threshold"),
    }
}

#[test]
fn stale_quote_ends_cycle_in_error() {
    let risk = RiskManager::new(1_000_000, 1000);
    let mut c = CycleController::new();
    assert!(c.begin_cycle());
    match c.on_fetched(&config(), call(9580), Err(OracleError::Stale), &risk, 1000) {
        FetchStep::Done(rec) => assert_eq!(rec.outcome, CycleOutcome::Error(CycleError::Stale)),
        FetchStep::Submit(_) => panic!("submitted on a stale quote"),
    }
    assert!(c.begin_cycle());
    match c.on_fetched(&config(), call(9580), Err(OracleError::UnknownAsset), &risk, 1000) {
        FetchStep::Done(rec) => assert_eq!(rec.outcome, CycleOutcome::Error(CycleError::UnknownAsset)),
        FetchStep::Submit(_) => panic!("submitted for an unknown asset"),
    }
    assert_eq!(c.cycle_id(), 2);
}

fn submitted(c: &mut CycleController, risk: &RiskManager) {
    assert!(c.begin_cycle());
    match c.on_fetched(&config(), call(9580), quote(), risk, 1000) {
        FetchStep::Submit(g) => {
            assert_eq!(g.ops[0], Operation::GuardCheck(GuardParameters { asset_id: 1, direction: Direction::Up, strike_price: 100 }));
            assert_eq!(g.ops[1], Operation::Transfer { from: 0, to: 1, amount: 200_000 });
            assert_eq!(g.ops[2], Operation::PriorityFee { from: 0, to: 2, amount: 3 });
        }
        FetchStep::Done(_) => panic!("a confident call was not submitted"),
    }
    assert_eq!(c.phase(), Phase::Submitting);
}

#[test]
fn committed_cycle_books_pnl_once() {
    let mut risk = RiskManager::new(1_000_000, 1000);
    let mut c = CycleController::new();
    submitted(&mut c, &risk);
    assert_eq!(c.on_submitted(Ok(())), None);
    assert_eq!(c.phase(), Phase::AwaitingOutcome);
    assert_eq!(c.on_status(&config(), RelayStatus::Unknown, 3, &mut risk), None);
    let rec = c.on_status(&config(), RelayStatus::Committed { pnl: -23 }, 4, &mut risk).unwrap();
    assert_eq!(rec.outcome, CycleOutcome::Committed);
    assert_eq!(rec.stake.unwrap().amount, 200_000);
    assert_eq!(risk.current_loss, 23);
    assert_eq!(c.phase(), Phase::Idle);
}

#[test]
fn reverted_cycle_leaves_risk_alone() {
    let mut risk = RiskManager::new(1_000_000, 1000);
    let mut c = CycleController::new();
    submitted(&mut c, &risk);
    assert_eq!(c.on_submitted(Ok(())), None);
    let rec = c.on_status(&config(), RelayStatus::Reverted, 1, &mut risk).unwrap();
    assert_eq!(rec.outcome, CycleOutcome::Reverted);
    assert_eq!(risk.current_loss, 0);
}

#[test]
fn timeout_is_an_error_not_a_result() {
    let mut risk = RiskManager::new(1_000_000, 1000);
    let mut c = CycleController::new();
    submitted(&mut c, &risk);
    assert_eq!(c.on_submitted(Ok(())), None);
    let rec = c.on_status(&config(), RelayStatus::Unknown, 10, &mut risk).unwrap();
    assert_eq!(rec.outcome, CycleOutcome::Error(CycleError::Timeout));
    assert_eq!(risk.current_loss, 0);
    assert_eq!(c.phase(), Phase::Idle);
}

#[test]
fn rejected_submission_is_an_error() {
    let risk = RiskManager::new(1_000_000, 1000);
    let mut c = CycleController::new();
    submitted(&mut c, &risk);
    let rec = c.on_submitted(Err(SubmitError::Rejected)).unwrap();
    assert_eq!(rec.outcome, CycleOutcome::Error(CycleError::SubmissionRejected));
    submitted(&mut c, &risk);
    let rec = c.on_submitted(Err(SubmitError::Unavailable)).unwrap();
    assert_eq!(rec.outcome, CycleOutcome::Error(CycleError::RelayUnavailable));
    assert_eq!(rec.cycle_id, 2);
}

#[test]
fn shutdown_is_honoured_between_cycles() {
    let risk = RiskManager::new(1_000_000, 1000);
    let mut c = CycleController::new();
    submitted(&mut c, &risk);
    c.request_shutdown();
    assert!(c.shutdown_requested());
    assert_eq!(c.phase(), Phase::Submitting);
    assert_eq!(c.on_submitted(Err(SubmitError::Unavailable)).unwrap().cycle_id, 1);
    assert!(!c.begin_cycle());
    assert_eq!(c.phase(), Phase::Idle);
}

#[test]
fn sleep_subtracts_elapsed_time() {
    let cfg = config();
    assert_eq!(cfg.sleep_after(15), 45);
    assert_eq!(cfg.sleep_after(60), 0);
    assert_eq!(cfg.sleep_after(90), 0);
}
