//! The shape of a feed-forward network and the checks on what is fed to it.
//!
//! The network itself computes in floating point and lives outside this
//! library. What is decided here is whether a list of layer widths makes a
//! network, how many parameters it has, and whether inputs and targets fit
//! it.

use vstd::prelude::*;
use crate::text::{decimal, push_decimal, push_str, string_of};

verus! {

/// Number of training epochs where none is asked for.
pub const DEFAULT_EPOCHS: usize = 1000;

/// Learning rate where none is asked for: `0.1`, in millionths.
pub const DEFAULT_LEARNING_RATE: u64 = 100_000;

/// Why a network, a training set or an input was refused.
#[derive(Debug, Clone, Copy, PartialEq, Eq, Structural)]
pub enum NetworkError {
    /// Fewer than two layers.
    TooFewLayers,
    /// A layer of width zero.
    EmptyLayer,
    /// No inputs or no targets.
    EmptyTrainingSet,
    /// As many targets as inputs are needed.
    CountMismatch,
    /// An input is not as wide as the first layer.
    InputSizeMismatch { expected: usize, got: usize },
    /// A target is not as wide as the last layer.
    TargetSizeMismatch { expected: usize, got: usize },
}

/// Whether the widths make a network: at least two layers, none empty.
pub open spec fn valid_layers(layers: Seq<usize>) -> bool {
    layers.len() >= 2 && forall|i: int| 0 <= i < layers.len() ==> #[trigger] layers[i] > 0
}

/// Number of weights and biases of the first `n` layer transitions.
pub open spec fn parameters_up_to(layers: Seq<usize>, n: int) -> nat
    decreases n,
{
    if n <= 0 || n >= layers.len() {
        0
    } else {
        parameters_up_to(layers, n - 1) + (layers[n] * layers[n - 1] + layers[n]) as nat
    }
}

/// Number of weights and biases of a network: for every layer after the
/// first, a weight per pair of a unit and a unit of the layer before, and a
/// bias per unit.
pub open spec fn parameter_count(layers: Seq<usize>) -> nat {
    parameters_up_to(layers, layers.len() - 1)
}

/// The first position at or after `from` whose length differs from
/// `expected`, `-1` if there is none.
pub open spec fn first_mismatch(lens: Seq<usize>, expected: usize, from: int) -> int
    decreases lens.len() - from,
{
    if from < 0 || from >= lens.len() {
        -1
    } else if lens[from] != expected {
        from
    } else {
        first_mismatch(lens, expected, from + 1)
    }
}

/// The verdict on a training set for a network of the given widths: the
/// first of the checks that fails, in the order of [`NetworkError`].
pub open spec fn training_verdict(
    layers: Seq<usize>,
    input_lens: Seq<usize>,
    target_lens: Seq<usize>,
) -> Result<(), NetworkError>
    recommends
        layers.len() >= 1,
{
    if input_lens.len() == 0 || target_lens.len() == 0 {
        Err(NetworkError::EmptyTrainingSet)
    } else if input_lens.len() != target_lens.len() {
        Err(NetworkError::CountMismatch)
    } else if first_mismatch(input_lens, layers[0], 0) >= 0 {
        Err(
            NetworkError::InputSizeMismatch {
                expected: layers[0],
                got: input_lens[first_mismatch(input_lens, layers[0], 0)],
            },
        )
    } else if first_mismatch(target_lens, layers.last(), 0) >= 0 {
        Err(
            NetworkError::TargetSizeMismatch {
                expected: layers.last(),
                got: target_lens[first_mismatch(target_lens, layers.last(), 0)],
            },
        )
    } else {
        Ok(())
    }
}

/// The message of an error.
pub open spec fn error_message(e: NetworkError) -> Seq<char> {
    match e {
        NetworkError::TooFewLayers => "Network must have at least 2 layers"@,
        NetworkError::EmptyLayer => "Layer size must be greater than 0"@,
        NetworkError::EmptyTrainingSet => "Inputs and targets cannot be empty"@,
        NetworkError::CountMismatch => "Number of inputs must match number of targets"@,
        NetworkError::InputSizeMismatch { expected, got } => "Input size mismatch. Expected "@
            + decimal(expected as nat) + ", got "@ + decimal(got as nat),
        NetworkError::TargetSizeMismatch { expected, got } => "Target size mismatch. Expected "@
            + decimal(expected as nat) + ", got "@ + decimal(got as nat),
    }
}

impl NetworkError {
    /// The message of the error.
    pub fn message(&self) -> (r: String)
        ensures
            r@ == error_message(*self),
    {
        match self {
            NetworkError::TooFewLayers => String::from_str("Network must have at least 2 layers"),
            NetworkError::EmptyLayer => String::from_str("Layer size must be greater than 0"),
            NetworkError::EmptyTrainingSet => String::from_str(
                "Inputs and targets cannot be empty",
            ),
            NetworkError::CountMismatch => String::from_str(
                "Number of inputs must match number of targets",
            ),
            NetworkError::InputSizeMismatch { expected, got } => {
                let mut out: Vec<char> = Vec::new();
                push_str(&mut out, "Input size mismatch. Expected ");
                push_decimal(&mut out, *expected as u64);
                push_str(&mut out, ", got ");
                push_decimal(&mut out, *got as u64);
                string_of(&out)
            },
            NetworkError::TargetSizeMismatch { expected, got } => {
                let mut out: Vec<char> = Vec::new();
                push_str(&mut out, "Target size mismatch. Expected ");
                push_decimal(&mut out, *expected as u64);
                push_str(&mut out, ", got ");
                push_decimal(&mut out, *got as u64);
                string_of(&out)
            },
        }
    }
}

/// The shapes of the weight matrices of a network, one per layer
/// transition: as many rows as the layer has units, as many columns as the
/// layer before.
pub open spec fn weight_shapes_spec(layers: Seq<usize>) -> Seq<(usize, usize)> {
    Seq::new(
        if layers.len() == 0 {
            0nat
        } else {
            (layers.len() - 1) as nat
        },
        |i: int| (layers[i + 1], layers[i]),
    )
}

/// The shapes of the weight matrices of a network of the given widths.
pub fn weight_shapes(layers: &Vec<usize>) -> (r: Vec<(usize, usize)>)
    ensures
        r@ == weight_shapes_spec(layers@),
{
    let n = layers.len();
    let mut shapes: Vec<(usize, usize)> = Vec::new();
    if n == 0 {
        return shapes;
    }
    let mut i: usize = 0;
    while i + 1 < n
        invariant
            n == layers@.len(),
            n > 0,
            i + 1 <= n,
            shapes@.len() == i,
            forall|k: int| 0 <= k < i ==> #[trigger] shapes@[k] == (layers@[k + 1], layers@[k]),
        decreases n - i,
    {
        shapes.push((layers[i + 1], layers[i]));
        i = i + 1;
    }
    shapes
}

/// The widths of the network of the exclusive-or demonstration.
pub fn xor_demo_layers() -> (r: Vec<usize>)
    ensures
        r@ == seq![2usize, 4usize, 1usize],
        valid_layers(r@),
{
    let mut layers: Vec<usize> = Vec::new();
    layers.push(2);
    layers.push(4);
    layers.push(1);
    layers
}

/// Checks that the widths make a network.
pub fn validate_layers(layers: &Vec<usize>) -> (r: Result<(), NetworkError>)
    ensures
        r is Ok <==> valid_layers(layers@),
        r is Err ==> r->Err_0 == if layers@.len() < 2 {
            NetworkError::TooFewLayers
        } else {
            NetworkError::EmptyLayer
        },
{
    let n = layers.len();
    if n < 2 {
        return Err(NetworkError::TooFewLayers);
    }
    let mut i: usize = 0;
    while i < n
        invariant
            n == layers@.len(),
            2 <= n,
            i <= n,
            forall|k: int| 0 <= k < i ==> #[trigger] layers@[k] > 0,
        decreases n - i,
    {
        if layers[i] == 0 {
            return Err(NetworkError::EmptyLayer);
        }
        i = i + 1;
    }
    Ok(())
}

/// Counts the weights and biases of a network of the given widths. `None`
/// if the count does not fit the machine word.
pub fn total_parameters(layers: &Vec<usize>) -> (r: Option<usize>)
    ensures
        match r {
            Some(n) => n == parameter_count(layers@),
            None => parameter_count(layers@) > usize::MAX,
        },
{
    let n = layers.len();
    if n < 2 {
        return Some(0);
    }
    let mut total: usize = 0;
    let mut i: usize = 1;
    while i < n
        invariant
            n == layers@.len(),
            1 <= i <= n,
            total == parameters_up_to(layers@, i - 1),
        decreases n - i,
    {
        let weights = layers[i].checked_mul(layers[i - 1]);
        let layer_total = match weights {
            Some(w) => w.checked_add(layers[i]),
            None => None,
        };
        let next = match layer_total {
            Some(t) => total.checked_add(t),
            None => None,
        };
        match next {
            Some(t) => {
                total = t;
            },
            None => {
                proof {
                    parameters_monotonic(layers@, i as int, n - 1);
                }
                return None;
            },
        }
        i = i + 1;
    }
    Some(total)
}

/// The count grows with the number of transitions.
pub proof fn parameters_monotonic(layers: Seq<usize>, a: int, b: int)
    requires
        0 <= a <= b < layers.len(),
    ensures
        parameters_up_to(layers, a) <= parameters_up_to(layers, b),
    decreases b - a,
{
    if a < b {
        parameters_monotonic(layers, a, b - 1);
    }
}

/// The first position whose length differs from `expected`.
fn find_mismatch(lens: &Vec<usize>, expected: usize) -> (r: Option<usize>)
    ensures
        match r {
            Some(i) => i == first_mismatch(lens@, expected, 0) && i < lens@.len(),
            None => first_mismatch(lens@, expected, 0) < 0,
        },
{
    let n = lens.len();
    let mut i: usize = 0;
    while i < n
        invariant
            n == lens@.len(),
            i <= n,
            first_mismatch(lens@, expected, 0) == first_mismatch(lens@, expected, i as int),
        decreases n - i,
    {
        if lens[i] != expected {
            return Some(i);
        }
        i = i + 1;
    }
    None
}

/// Checks a training set against a network of the given widths.
/// `input_lens` and `target_lens` are the widths of the inputs and of the
/// targets, in order.
pub fn validate_training_set(
    layers: &Vec<usize>,
    input_lens: &Vec<usize>,
    target_lens: &Vec<usize>,
) -> (r: Result<(), NetworkError>)
    requires
        layers@.len() > 0,
    ensures
        r == training_verdict(layers@, input_lens@, target_lens@),
{
    if input_lens.len() == 0 || target_lens.len() == 0 {
        return Err(NetworkError::EmptyTrainingSet);
    }
    if input_lens.len() != target_lens.len() {
        return Err(NetworkError::CountMismatch);
    }
    let input_size = layers[0];
    let output_size = layers[layers.len() - 1];
    match find_mismatch(input_lens, input_size) {
        Some(i) => {
            return Err(
                NetworkError::InputSizeMismatch { expected: input_size, got: input_lens[i] },
            );
        },
        None => {},
    }
    match find_mismatch(target_lens, output_size) {
        Some(i) => {
            return Err(
                NetworkError::TargetSizeMismatch { expected: output_size, got: target_lens[i] },
            );
        },
        None => {},
    }
    Ok(())
}

/// Checks the width of an input against a network of the given widths.
pub fn validate_input(layers: &Vec<usize>, input_len: usize) -> (r: Result<(), NetworkError>)
    requires
        layers@.len() > 0,
    ensures
        r == if input_len == layers@[0] {
            Ok::<(), NetworkError>(())
        } else {
            Err::<(), NetworkError>(
                NetworkError::InputSizeMismatch { expected: layers@[0], got: input_len },
            )
        },
{
    if input_len == layers[0] {
        Ok(())
    } else {
        Err(NetworkError::InputSizeMismatch { expected: layers[0], got: input_len })
    }
}

/// The number of epochs to train for: what was asked for, or the default.
pub fn epochs_or_default(epochs: Option<usize>) -> (r: usize)
    ensures
        r == match epochs {
            Some(n) => n,
            None => DEFAULT_EPOCHS,
        },
{
    match epochs {
        Some(n) => n,
        None => DEFAULT_EPOCHS,
    }
}

} // verus!
