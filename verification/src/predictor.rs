//! Outcome prediction: a blend of the historical success rate of a task
//! kind with the estimate of a trained numeric model.
//!
//! The numeric model itself computes in floating point and lives outside
//! this library; what it returns enters here as a fixed-point probability.

use vstd::prelude::*;
use crate::fixed::{mix, mix_spec, ratio, ratio_spec, SCALE};
use crate::store::Aggregate;

verus! {

/// The rate assumed for a task kind without history: `0.5`.
pub const NEUTRAL_RATE: u64 = 500_000;

/// The duration assumed for a task kind without history, in milliseconds.
pub const DEFAULT_DURATION_MS: u64 = 1000;

/// History is thin up to this many attempts.
pub const THIN_HISTORY: u64 = 3;

/// History is rich above this many attempts.
pub const RICH_HISTORY: u64 = 10;

/// Number of inputs of the numeric model.
pub const ESTIMATOR_INPUTS: usize = 24;

/// Learning rate of the numeric model: `0.01`.
pub const ESTIMATOR_LEARNING_RATE: u64 = 10_000;

/// Share of successes among the attempts, `0.5` without attempts.
pub open spec fn historical_rate_spec(successful: int, attempts: int) -> int {
    if attempts == 0 {
        NEUTRAL_RATE as int
    } else {
        ratio_spec(successful, attempts)
    }
}

/// A probability cut off at `1.0`.
pub open spec fn clamp_unit(p: int) -> int {
    if p > SCALE {
        SCALE as int
    } else {
        p
    }
}

/// The blended success probability.
///
/// Without a neural estimate: the historical rate. With one, cut off at
/// `1.0`: `0.7 h + 0.3 n` above ten attempts, `0.5 h + 0.5 n` above three,
/// `0.3 h + 0.7 n` up to three.
pub open spec fn blend_spec(historical: int, neural: Option<u64>, attempts: int) -> int {
    match neural {
        None => historical,
        Some(n) => if attempts > RICH_HISTORY {
            mix_spec(7, historical, 3, clamp_unit(n as int))
        } else if attempts > THIN_HISTORY {
            mix_spec(5, historical, 5, clamp_unit(n as int))
        } else {
            mix_spec(3, historical, 7, clamp_unit(n as int))
        },
    }
}

/// The confidence in a prediction: `0.95` with a neural estimate and more
/// than three attempts; else `0.9` above ten attempts, `0.7` above three,
/// `0.3` up to three.
pub open spec fn confidence_spec(neural_present: bool, attempts: int) -> int {
    if neural_present && attempts > THIN_HISTORY {
        950_000
    } else if attempts > RICH_HISTORY {
        900_000
    } else if attempts > THIN_HISTORY {
        700_000
    } else {
        300_000
    }
}

/// Without history the confidence is `0.3`, and it stays there up to three
/// attempts; above three attempts it is at least `0.7`, with or without a
/// neural estimate.
pub proof fn confidence_by_history(neural_present: bool, attempts: int)
    ensures
        attempts <= THIN_HISTORY ==> confidence_spec(neural_present, attempts) == 300_000,
        attempts > THIN_HISTORY ==> confidence_spec(neural_present, attempts) >= 700_000,
{
}

/// A predicted outcome.
#[derive(Debug, Clone, Copy, PartialEq, Eq, Structural)]
pub struct Prediction {
    /// Blended success probability, in millionths.
    pub success_rate: u64,
    /// Confidence in the prediction, in millionths.
    pub confidence: u64,
    /// Number of recorded attempts of the task kind.
    pub historical_attempts: u64,
    /// Mean duration of the recorded attempts, in milliseconds.
    pub estimated_duration_ms: u64,
    /// Whether a neural estimate entered the blend.
    pub neural_used: bool,
}

/// The prediction for a task kind with the statistics `stats`, given the
/// neural estimate `neural`, if there is one.
pub open spec fn predict_spec(stats: Aggregate, neural: Option<u64>) -> Prediction {
    Prediction {
        success_rate: blend_spec(
            historical_rate_spec(stats.successful_attempts as int, stats.total_attempts as int),
            neural,
            stats.total_attempts as int,
        ) as u64,
        confidence: confidence_spec(neural is Some, stats.total_attempts as int) as u64,
        historical_attempts: stats.total_attempts,
        estimated_duration_ms: match stats.average_duration_ms {
            Some(d) => d,
            None => DEFAULT_DURATION_MS,
        },
        neural_used: neural is Some,
    }
}

/// Share of successes among the attempts, `0.5` without attempts.
pub fn historical_rate(successful: u64, attempts: u64) -> (r: u64)
    requires
        successful <= attempts,
    ensures
        r == historical_rate_spec(successful as int, attempts as int),
        r <= SCALE,
{
    if attempts == 0 {
        NEUTRAL_RATE
    } else {
        ratio(successful as u128, attempts as u128)
    }
}

/// The blended success probability of a task kind with `attempts` recorded
/// attempts and the historical rate `historical`.
pub fn blend(historical: u64, neural: Option<u64>, attempts: u64) -> (r: u64)
    requires
        historical <= SCALE,
    ensures
        r == blend_spec(historical as int, neural, attempts as int),
        r <= SCALE,
{
    match neural {
        None => historical,
        Some(n) => {
            let n = if n > SCALE {
                SCALE
            } else {
                n
            };
            if attempts > RICH_HISTORY {
                mix(7, historical, 3, n)
            } else if attempts > THIN_HISTORY {
                mix(5, historical, 5, n)
            } else {
                mix(3, historical, 7, n)
            }
        },
    }
}

/// The confidence in a prediction from `attempts` recorded attempts.
pub fn confidence(neural_present: bool, attempts: u64) -> (r: u64)
    ensures
        r == confidence_spec(neural_present, attempts as int),
        r <= SCALE,
{
    if neural_present && attempts > THIN_HISTORY {
        950_000
    } else if attempts > RICH_HISTORY {
        900_000
    } else if attempts > THIN_HISTORY {
        700_000
    } else {
        300_000
    }
}

/// The prediction for a task kind with the statistics `stats`, given the
/// neural estimate `neural`, if there is one.
pub fn predict(stats: &Aggregate, neural: Option<u64>) -> (r: Prediction)
    requires
        stats.wf(),
    ensures
        r == predict_spec(*stats, neural),
        r.success_rate <= SCALE,
        r.confidence <= SCALE,
{
    let historical = historical_rate(stats.successful_attempts, stats.total_attempts);
    Prediction {
        success_rate: blend(historical, neural, stats.total_attempts),
        confidence: confidence(neural.is_some(), stats.total_attempts),
        historical_attempts: stats.total_attempts,
        estimated_duration_ms: match stats.average_duration_ms {
            Some(d) => d,
            None => DEFAULT_DURATION_MS,
        },
        neural_used: neural.is_some(),
    }
}

/// What the owner of the numeric model is to do for one prediction.
#[derive(Debug, Clone, Copy, PartialEq, Eq, Structural)]
pub enum EstimatorStep {
    /// Create the model; this prediction goes without a neural estimate.
    Create,
    /// Run a forward pass on the encoded features of the task.
    Infer,
}

/// The predictor: it knows whether the numeric model exists yet.
pub struct OutcomePredictor {
    estimator_ready: bool,
}

impl OutcomePredictor {
    /// Whether the numeric model exists.
    pub closed spec fn ready(&self) -> bool {
        self.estimator_ready
    }

    /// A predictor whose numeric model does not exist yet.
    pub fn new() -> (r: OutcomePredictor)
        ensures
            !r.ready(),
    {
        OutcomePredictor { estimator_ready: false }
    }

    /// Whether the numeric model exists.
    pub fn is_ready(&self) -> (r: bool)
        ensures
            r == self.ready(),
    {
        self.estimator_ready
    }

    /// The widths of the layers of the numeric model: 24 inputs, hidden
    /// layers of 32 and 16, one output.
    pub fn estimator_layers() -> (r: Vec<usize>)
        ensures
            r@ == seq![24usize, 32usize, 16usize, 1usize],
    {
        let mut layers: Vec<usize> = Vec::new();
        layers.push(ESTIMATOR_INPUTS);
        layers.push(32);
        layers.push(16);
        layers.push(1);
        layers
    }

    /// Starts a prediction: says what to do with the numeric model. The
    /// model is created on the first prediction and exists from then on.
    pub fn begin(&mut self) -> (step: EstimatorStep)
        ensures
            final(self).ready(),
            step == if old(self).ready() {
                EstimatorStep::Infer
            } else {
                EstimatorStep::Create
            },
    {
        if self.estimator_ready {
            EstimatorStep::Infer
        } else {
            self.estimator_ready = true;
            EstimatorStep::Create
        }
    }

    /// The neural estimate that enters the blend: none on the prediction
    /// that created the model, else what the forward pass returned, if it
    /// returned anything.
    pub open spec fn admitted(step: EstimatorStep, reading: Option<u64>) -> Option<u64> {
        match step {
            EstimatorStep::Create => None,
            EstimatorStep::Infer => reading,
        }
    }

    /// Finishes a prediction that `begin` started with `step`, given what
    /// the forward pass returned.
    pub fn finish(step: EstimatorStep, stats: &Aggregate, reading: Option<u64>) -> (r: Prediction)
        requires
            stats.wf(),
        ensures
            r == predict_spec(*stats, Self::admitted(step, reading)),
    {
        let neural = match step {
            EstimatorStep::Create => None,
            EstimatorStep::Infer => reading,
        };
        predict(stats, neural)
    }
}

} // verus!
