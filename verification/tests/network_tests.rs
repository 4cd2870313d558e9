use ruv_swarm::forecast::{
    initialize_model, model_info, plan_forecast, window_count, ForecastError, ForecastModel,
    ForecastPlan,
};
use ruv_swarm::network::{
    epochs_or_default, total_parameters, validate_input, validate_layers, validate_training_set,
    weight_shapes, xor_demo_layers, NetworkError,
};

#[test]
fn layers_need_two_widths_above_zero() {
    assert_eq!(validate_layers(&vec![]), Err(NetworkError::TooFewLayers));
    assert_eq!(validate_layers(&vec![3]), Err(NetworkError::TooFewLayers));
    assert_eq!(validate_layers(&vec![0]), Err(NetworkError::TooFewLayers));
    assert_eq!(validate_layers(&vec![2, 0, 1]), Err(NetworkError::EmptyLayer));
    assert_eq!(validate_layers(&vec![0, 1]), Err(NetworkError::EmptyLayer));
    assert_eq!(validate_layers(&vec![2, 1, 0]), Err(NetworkError::EmptyLayer));
    assert_eq!(validate_layers(&vec![2, 4, 1]), Ok(()));
    assert_eq!(validate_layers(&vec![1, 1]), Ok(()));
}

#[test]
fn parameters_are_weights_and_biases() {
    // 2*4 + 4 + 4*1 + 1
    assert_eq!(total_parameters(&vec![2, 4, 1]), Some(17));
    // 24*32 + 32 + 32*16 + 16 + 16*1 + 1
    assert_eq!(total_parameters(&vec![24, 32, 16, 1]), Some(1345));
    assert_eq!(total_parameters(&vec![10, 20, 1]), Some(241));
    assert_eq!(total_parameters(&vec![5]), Some(0));
    assert_eq!(total_parameters(&vec![]), Some(0));
    assert_eq!(total_parameters(&vec![3, 0]), Some(0));
    assert_eq!(total_parameters(&vec![usize::MAX, 2]), None);
    assert_eq!(total_parameters(&vec![1, usize::MAX]), None);
    assert_eq!(total_parameters(&vec![1, usize::MAX / 2, 1]), None);
    assert_eq!(total_parameters(&vec![1, usize::MAX / 2]), Some(usize::MAX - 1));
}

#[test]
fn training_sets_are_checked_in_order() {
    let layers = vec![2, 4, 1];
    assert_eq!(validate_training_set(&layers, &vec![], &vec![]), Err(NetworkError::EmptyTrainingSet));
    assert_eq!(validate_training_set(&layers, &vec![2], &vec![]), Err(NetworkError::EmptyTrainingSet));
    assert_eq!(validate_training_set(&layers, &vec![], &vec![1]), Err(NetworkError::EmptyTrainingSet));
    assert_eq!(validate_training_set(&layers, &vec![2, 2], &vec![1]), Err(NetworkError::CountMismatch));
    assert_eq!(
        validate_training_set(&layers, &vec![2, 3, 5], &vec![1, 1, 9]),
        Err(NetworkError::InputSizeMismatch { expected: 2, got: 3 })
    );
    assert_eq!(
        validate_training_set(&layers, &vec![2, 2, 2], &vec![1, 0, 9]),
        Err(NetworkError::TargetSizeMismatch { expected: 1, got: 0 })
    );
    assert_eq!(validate_training_set(&layers, &vec![2, 2, 2, 2], &vec![1, 1, 1, 1]), Ok(()));
}

#[test]
fn inputs_must_fit_the_first_layer() {
    let layers = vec![2, 4, 1];
    assert_eq!(validate_input(&layers, 2), Ok(()));
    assert_eq!(validate_input(&layers, 1), Err(NetworkError::InputSizeMismatch { expected: 2, got: 1 }));
    assert_eq!(validate_input(&layers, 0), Err(NetworkError::InputSizeMismatch { expected: 2, got: 0 }));
}

#[test]
fn network_errors_have_messages() {
    assert_eq!(NetworkError::TooFewLayers.message(), "Network must have at least 2 layers");
    assert_eq!(NetworkError::EmptyLayer.message(), "Layer size must be greater than 0");
    assert_eq!(NetworkError::EmptyTrainingSet.message(), "Inputs and targets cannot be empty");
    assert_eq!(NetworkError::CountMismatch.message(), "Number of inputs must match number of targets");
    assert_eq!(
        NetworkError::InputSizeMismatch { expected: 24, got: 3 }.message(),
        "Input size mismatch. Expected 24, got 3"
    );
    assert_eq!(
        NetworkError::TargetSizeMismatch { expected: 1, got: 100 }.message(),
        "Target size mismatch. Expected 1, got 100"
    );
}

#[test]
fn epochs_default_to_a_thousand() {
    assert_eq!(epochs_or_default(None), 1000);
    assert_eq!(epochs_or_default(Some(0)), 0);
    assert_eq!(epochs_or_default(Some(5)), 5);
}

#[test]
fn the_forecast_model_has_its_shape() {
    assert_eq!(
        initialize_model(),
        ForecastModel { input_window: 10, hidden_size: 20, output_size: 1 }
    );
    let info = model_info();
    assert_eq!(info.name, "SimpleMLP Forecaster");
    assert_eq!(info.model_type, "Multi-Layer Perceptron");
    assert_eq!(info.input_window, 10);
    assert_eq!(info.max_horizon, 30);
    assert_eq!(
        info.features,
        vec![
            "Time series forecasting",
            "Confidence intervals",
            "Trend following",
            "Fast inference (<50ms)"
        ]
    );
}

#[test]
fn forecasts_need_ten_values() {
    assert_eq!(plan_forecast(0, None), Err(ForecastError::EmptyInput));
    assert_eq!(plan_forecast(0, Some(3)), Err(ForecastError::EmptyInput));
    assert_eq!(plan_forecast(1, None), Err(ForecastError::TooFewValues));
    assert_eq!(plan_forecast(9, Some(3)), Err(ForecastError::TooFewValues));
    assert_eq!(plan_forecast(10, None), Ok(ForecastPlan { window_start: 0, horizon: 5 }));
    assert_eq!(plan_forecast(25, Some(7)), Ok(ForecastPlan { window_start: 15, horizon: 7 }));
    assert_eq!(plan_forecast(25, Some(30)), Ok(ForecastPlan { window_start: 15, horizon: 30 }));
    assert_eq!(plan_forecast(25, Some(31)), Ok(ForecastPlan { window_start: 15, horizon: 30 }));
    assert_eq!(plan_forecast(25, Some(0)), Ok(ForecastPlan { window_start: 15, horizon: 0 }));
    assert_eq!(ForecastError::EmptyInput.message(), "Input values cannot be empty");
    assert_eq!(
        ForecastError::TooFewValues.message(),
        "Need at least 10 historical values for forecasting"
    );
}

#[test]
fn weight_matrices_follow_the_layers() {
    assert_eq!(weight_shapes(&vec![2, 4, 1]), vec![(4, 2), (1, 4)]);
    assert_eq!(weight_shapes(&vec![24, 32, 16, 1]), vec![(32, 24), (16, 32), (1, 16)]);
    assert_eq!(weight_shapes(&vec![7]), vec![]);
    assert_eq!(weight_shapes(&vec![]), vec![]);
    assert_eq!(xor_demo_layers(), vec![2, 4, 1]);
    assert_eq!(validate_layers(&xor_demo_layers()), Ok(()));
}

#[test]
fn training_sets_are_checked_against_any_layers() {
    // a single layer is both the first and the last
    assert_eq!(validate_training_set(&vec![3], &vec![3], &vec![3]), Ok(()));
    assert_eq!(
        validate_training_set(&vec![3], &vec![3], &vec![2]),
        Err(NetworkError::TargetSizeMismatch { expected: 3, got: 2 })
    );
    assert_eq!(validate_input(&vec![0, 5], 0), Ok(()));
}

#[test]
fn windows_need_a_value_after_them() {
    assert_eq!(window_count(10, 3), 7);
    assert_eq!(window_count(3, 3), 0);
    assert_eq!(window_count(2, 3), 0);
    assert_eq!(window_count(0, 0), 0);
    assert_eq!(window_count(5, 0), 5);
}
