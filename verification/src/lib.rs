//! A minimal feed-forward neural network engine: layers with fixed widths
//! are composed into a model, and the model's shape is checked once, at
//! construction, so that inference and training can rely on it.
//!
//! This crate holds the structural core: layer and model construction with
//! their width invariants, dimension checking for the vectors that flow
//! through the network, read-only introspection of the chain, and a seedable
//! deterministic generator that drives parameter randomization. The scalar
//! arithmetic of the forward and backward passes operates on floating-point
//! values and lives with the callers of this crate.

pub mod activation;
pub mod error;
pub mod layer;
pub mod model;
pub mod rng;
