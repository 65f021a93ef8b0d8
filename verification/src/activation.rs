//! The closed set of activation functions a layer can be configured with.
//!
//! The tags are plain data: the scalar transfer functions they stand for
//! (sigmoid, rectifiers, tanh, softmax) are floating-point computations and
//! are carried out by the caller. What the crate states about them is
//! structural: which tag a layer carries, and whether the function is applied
//! to each pre-activation value on its own or jointly across the whole
//! pre-activation vector.

use vstd::prelude::*;

verus! {

/// An activation function, applied to a layer's pre-activation values.
#[derive(Clone, Copy, PartialEq, Eq, Structural, Debug)]
pub enum ActivationFunction {
    /// `f(x) = x`.
    Identity,
    /// `f(x) = 1 / (1 + e^-x)`.
    Sigmoid,
    /// `f(x) = max(0, x)`.
    ReLU,
    /// `f(x) = max(x, 0.1 x)`.
    LeakyReLU,
    /// `f(x) = tanh(x)`.
    TanH,
    /// `f(x_i) = e^{x_i} / sum_k e^{x_k}`, over the whole vector at once.
    Softmax,
}

impl ActivationFunction {
    /// Whether the function is applied jointly across the full output vector
    /// of a layer rather than to each element on its own. Only softmax is
    /// joint: every other tag is elementwise.
    pub fn applies_jointly(&self) -> (r: bool)
        ensures
            r == (*self is Softmax),
    {
        matches!(self, ActivationFunction::Softmax)
    }
}

} // verus!
