//! Ephemeral worker swarm: short-lived workers that each solve one task,
//! a coordinator that caps their number, a log of what they did, and
//! predictions drawn from that log.
//!
//! # Conventions
//!
//! - Fractions (rates, scores, probabilities, feature values) are
//!   fixed-point integers counted in millionths, rounded down where a
//!   quotient is taken; see [`fixed`].
//! - Times are milliseconds since 1970-01-01T00:00:00 UTC; see [`clock`].
//! - Identifiers are 128-bit values.
//! - Texts are specified as sequences of characters.
//!
//! # Modules
//!
//! - [`status`]: worker kinds and the lifecycle states.
//! - [`agent`]: the worker and what each kind makes of a problem.
//! - [`coordinator`]: the registry of workers under a cap.
//! - [`pool`]: queues of idle workers, for reuse.
//! - [`payload`]: task payloads read from JSON.
//! - [`similarity`]: similarity of two parameter documents.
//! - [`store`]: the pattern log and its queries.
//! - [`predictor`]: blending history with a learned estimate.
//! - [`features`]: tasks as vectors of 24 signals.
//! - [`analysis`]: similar attempts, alternatives, timing risk.
//! - [`network`], [`forecast`]: shapes and request checks of the numeric
//!   models, which themselves compute in floating point elsewhere.
//! - [`api`]: requests of a front end.
//! - [`text`], [`digest`], [`ident`], [`clock`], [`fixed`]: helpers.
//!
//! # What is trusted
//!
//! The JSON grammar (`serde_json`), the MD5 digest (`md5`), the clock
//! (`chrono`), fresh identifiers and their reading from text (`uuid`), and
//! from the standard library the making of a text from characters, the
//! case mappings and the white-space test. Each stands behind one function whose contract says
//! what is taken on trust.

pub mod agent;
pub mod analysis;
pub mod api;
pub mod clock;
pub mod coordinator;
pub mod digest;
pub mod features;
pub mod fixed;
pub mod forecast;
pub mod ident;
pub mod network;
pub mod payload;
pub mod pool;
pub mod predictor;
pub mod similarity;
pub mod status;
pub mod store;
pub mod text;
