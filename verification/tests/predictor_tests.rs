use ruv_swarm::predictor::{
    blend, confidence, historical_rate, predict, EstimatorStep, OutcomePredictor,
};
use ruv_swarm::store::Aggregate;

fn stats(total: u64, successful: u64, average: Option<u64>) -> Aggregate {
    Aggregate { total_attempts: total, successful_attempts: successful, average_duration_ms: average }
}

#[test]
fn blend_follows_the_documented_example() {
    // attempts = 15, historical = 0.8, neural = 0.4: 0.7 * 0.8 + 0.3 * 0.4 = 0.68
    assert_eq!(blend(800_000, Some(400_000), 15), 680_000);
    assert_eq!(confidence(true, 15), 950_000);
    assert_eq!(confidence(false, 15), 900_000);
    assert_eq!(blend(800_000, None, 15), 800_000);
}

#[test]
fn blend_weights_change_at_the_thresholds() {
    let h = 800_000;
    let n = Some(400_000);
    // up to three attempts: 0.3 h + 0.7 n
    assert_eq!(blend(h, n, 0), 520_000);
    assert_eq!(blend(h, n, 3), 520_000);
    // above three, up to ten: 0.5 h + 0.5 n
    assert_eq!(blend(h, n, 4), 600_000);
    assert_eq!(blend(h, n, 10), 600_000);
    // above ten: 0.7 h + 0.3 n
    assert_eq!(blend(h, n, 11), 680_000);
    assert_eq!(blend(h, n, u64::MAX), 680_000);
}

#[test]
fn blend_clamps_the_neural_estimate() {
    assert_eq!(blend(500_000, Some(5_000_000), 0), 850_000);
    assert_eq!(blend(500_000, Some(1_000_000), 0), 850_000);
    assert_eq!(blend(500_000, Some(u64::MAX), 20), 650_000);
    assert_eq!(blend(1_000_000, Some(1_000_000), 5), 1_000_000);
    assert_eq!(blend(0, Some(0), 5), 0);
}

#[test]
fn confidence_follows_the_thresholds() {
    assert_eq!(confidence(false, 0), 300_000);
    assert_eq!(confidence(false, 3), 300_000);
    assert_eq!(confidence(false, 4), 700_000);
    assert_eq!(confidence(false, 10), 700_000);
    assert_eq!(confidence(false, 11), 900_000);
    assert_eq!(confidence(true, 0), 300_000);
    assert_eq!(confidence(true, 3), 300_000);
    assert_eq!(confidence(true, 4), 950_000);
    assert_eq!(confidence(true, 10), 950_000);
    assert_eq!(confidence(true, 11), 950_000);
}

#[test]
fn historical_rate_is_neutral_without_attempts() {
    assert_eq!(historical_rate(0, 0), 500_000);
    assert_eq!(historical_rate(0, 4), 0);
    assert_eq!(historical_rate(4, 4), 1_000_000);
    assert_eq!(historical_rate(12, 15), 800_000);
    assert_eq!(historical_rate(1, 3), 333_333);
}

#[test]
fn predict_blends_history_and_estimate() {
    let p = predict(&stats(15, 12, Some(250)), Some(400_000));
    assert_eq!(p.success_rate, 680_000);
    assert_eq!(p.confidence, 950_000);
    assert_eq!(p.historical_attempts, 15);
    assert_eq!(p.estimated_duration_ms, 250);
    assert!(p.neural_used);

    let q = predict(&stats(15, 12, Some(250)), None);
    assert_eq!(q.success_rate, 800_000);
    assert_eq!(q.confidence, 900_000);
    assert!(!q.neural_used);

    let fresh = predict(&stats(0, 0, None), None);
    assert_eq!(fresh.success_rate, 500_000);
    assert_eq!(fresh.confidence, 300_000);
    assert_eq!(fresh.historical_attempts, 0);
    assert_eq!(fresh.estimated_duration_ms, 1000);

    let thin = predict(&stats(2, 1, Some(10)), Some(900_000));
    // 0.3 * 0.5 + 0.7 * 0.9
    assert_eq!(thin.success_rate, 780_000);
    assert_eq!(thin.confidence, 300_000);
}

#[test]
fn the_first_prediction_creates_the_estimator() {
    let mut predictor = OutcomePredictor::new();
    assert!(!predictor.is_ready());
    assert_eq!(predictor.begin(), EstimatorStep::Create);
    assert!(predictor.is_ready());
    assert_eq!(predictor.begin(), EstimatorStep::Infer);
    assert_eq!(predictor.begin(), EstimatorStep::Infer);
    assert_eq!(OutcomePredictor::estimator_layers(), vec![24, 32, 16, 1]);
}

#[test]
fn the_prediction_that_creates_the_estimator_goes_without_it() {
    let s = stats(15, 12, None);
    let created = OutcomePredictor::finish(EstimatorStep::Create, &s, Some(400_000));
    assert_eq!(created.success_rate, 800_000);
    assert_eq!(created.confidence, 900_000);
    assert!(!created.neural_used);
    let inferred = OutcomePredictor::finish(EstimatorStep::Infer, &s, Some(400_000));
    assert_eq!(inferred.success_rate, 680_000);
    assert_eq!(inferred.confidence, 950_000);
    assert!(inferred.neural_used);
    let unavailable = OutcomePredictor::finish(EstimatorStep::Infer, &s, None);
    assert_eq!(unavailable.success_rate, 800_000);
    assert!(!unavailable.neural_used);
}
