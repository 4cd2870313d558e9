//! The forecasting model: its description and the checks on a request.
//!
//! The model itself computes in floating point and lives outside this
//! library.

use vstd::prelude::*;

verus! {

/// Number of past values that the model looks at.
pub const INPUT_WINDOW: usize = 10;

/// Width of the hidden layer of the model.
pub const HIDDEN_SIZE: usize = 20;

/// Number of steps forecast where none is asked for.
pub const DEFAULT_HORIZON: usize = 5;

/// The largest number of steps that is forecast.
pub const MAX_HORIZON: usize = 30;

/// The shape of the forecasting model.
#[derive(Debug, Clone, Copy, PartialEq, Eq, Structural)]
pub struct ForecastModel {
    pub input_window: usize,
    pub hidden_size: usize,
    pub output_size: usize,
}

/// The description of the forecasting model.
#[derive(Debug, Clone)]
pub struct ModelInfo {
    pub name: String,
    pub model_type: String,
    pub input_window: usize,
    pub max_horizon: usize,
    pub features: Vec<String>,
}

/// Why a forecast was refused.
#[derive(Debug, Clone, Copy, PartialEq, Eq, Structural)]
pub enum ForecastError {
    /// No values were given.
    EmptyInput,
    /// Fewer values were given than the model looks at.
    TooFewValues,
}

/// What to forecast from a series.
#[derive(Debug, Clone, Copy, PartialEq, Eq, Structural)]
pub struct ForecastPlan {
    /// Position of the first value that the model looks at.
    pub window_start: usize,
    /// Number of steps to forecast.
    pub horizon: usize,
}

/// The number of steps to forecast: what was asked for, or five, and at
/// most thirty.
pub open spec fn horizon_spec(horizon: Option<usize>) -> usize {
    let asked = match horizon {
        Some(h) => h,
        None => DEFAULT_HORIZON,
    };
    if asked > MAX_HORIZON {
        MAX_HORIZON
    } else {
        asked
    }
}

/// The verdict on a request to forecast from `count` values.
pub open spec fn plan_spec(count: usize, horizon: Option<usize>) -> Result<
    ForecastPlan,
    ForecastError,
> {
    if count == 0 {
        Err(ForecastError::EmptyInput)
    } else if count < INPUT_WINDOW {
        Err(ForecastError::TooFewValues)
    } else {
        Ok(
            ForecastPlan {
                window_start: (count - INPUT_WINDOW) as usize,
                horizon: horizon_spec(horizon),
            },
        )
    }
}

impl ForecastError {
    /// The message of the error.
    pub fn message(&self) -> (r: &'static str)
        ensures
            r@ == match *self {
                ForecastError::EmptyInput => "Input values cannot be empty"@,
                ForecastError::TooFewValues => "Need at least 10 historical values for forecasting"@,
            },
    {
        match self {
            ForecastError::EmptyInput => "Input values cannot be empty",
            ForecastError::TooFewValues => "Need at least 10 historical values for forecasting",
        }
    }
}

/// The forecasting model as it starts out: ten inputs, a hidden layer of
/// twenty, one output.
pub fn initialize_model() -> (r: ForecastModel)
    ensures
        r == (ForecastModel {
            input_window: INPUT_WINDOW,
            hidden_size: HIDDEN_SIZE,
            output_size: 1,
        }),
{
    ForecastModel { input_window: INPUT_WINDOW, hidden_size: HIDDEN_SIZE, output_size: 1 }
}

/// Checks a request to forecast from `count` values and says which values
/// the model looks at and how far it forecasts.
pub fn plan_forecast(count: usize, horizon: Option<usize>) -> (r: Result<
    ForecastPlan,
    ForecastError,
>)
    ensures
        r == plan_spec(count, horizon),
{
    if count == 0 {
        return Err(ForecastError::EmptyInput);
    }
    if count < INPUT_WINDOW {
        return Err(ForecastError::TooFewValues);
    }
    let asked = match horizon {
        Some(h) => h,
        None => DEFAULT_HORIZON,
    };
    Ok(
        ForecastPlan {
            window_start: count - INPUT_WINDOW,
            horizon: if asked > MAX_HORIZON {
                MAX_HORIZON
            } else {
                asked
            },
        },
    )
}

/// Number of windows of `window_size` values in a series of `count`
/// values that have a value after them: none if the series is shorter than
/// a window.
pub fn window_count(count: usize, window_size: usize) -> (r: usize)
    ensures
        r == if count < window_size {
            0
        } else {
            count - window_size
        },
{
    if count < window_size {
        0
    } else {
        count - window_size
    }
}

/// The description of the forecasting model.
pub fn model_info() -> (r: ModelInfo)
    ensures
        r.name@ == "SimpleMLP Forecaster"@,
        r.model_type@ == "Multi-Layer Perceptron"@,
        r.input_window == INPUT_WINDOW,
        r.max_horizon == MAX_HORIZON,
        r.features@.len() == 4,
        r.features@[0]@ == "Time series forecasting"@,
        r.features@[1]@ == "Confidence intervals"@,
        r.features@[2]@ == "Trend following"@,
        r.features@[3]@ == "Fast inference (<50ms)"@,
{
    let mut features: Vec<String> = Vec::new();
    features.push(String::from_str("Time series forecasting"));
    features.push(String::from_str("Confidence intervals"));
    features.push(String::from_str("Trend following"));
    features.push(String::from_str("Fast inference (<50ms)"));
    ModelInfo {
        name: String::from_str("SimpleMLP Forecaster"),
        model_type: String::from_str("Multi-Layer Perceptron"),
        input_window: INPUT_WINDOW,
        max_horizon: MAX_HORIZON,
        features,
    }
}

} // verus!
