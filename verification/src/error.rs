//! Error values reported by construction and by dimension checking.

use vstd::prelude::*;

verus! {

/// Why building a layer or a model was refused. Construction is all-or-nothing:
/// on any of these, no partial layer or model is returned.
#[derive(Clone, Copy, PartialEq, Eq, Structural, Debug)]
pub enum ConstructionError {
    /// A layer width of zero was given.
    ZeroWidth,
    /// Fewer than two layer widths were given, so there is no input/output pair.
    TooFewLayers,
    /// The number of activation choices differs from the number of
    /// non-input layers.
    ActivationCountMismatch,
}

/// A vector handed to the network does not have the length the receiving
/// layer declares. The offending call is refused before any state changes.
#[derive(Clone, Copy, PartialEq, Eq, Structural, Debug)]
pub struct DimensionError {
    /// The length the layer expects.
    pub expected: usize,
    /// The length that was handed in.
    pub found: usize,
}

} // verus!
