//! Layers: the fully-connected stages a model is built from.
//!
//! A layer's shape — its input width, its output width, its role in the
//! chain and its activation tag — is fixed at construction and is the part
//! of the layer this crate reasons about. The weight matrix and bias vector
//! attached to a hidden or output layer hold floating-point scalars, so the
//! caller owns that storage; the shapes proved here say exactly how large it
//! must be and which vector lengths a pass through the layer accepts.

use vstd::prelude::*;

use crate::activation::ActivationFunction;
use crate::error::ConstructionError;
use crate::error::DimensionError;

verus! {

/// The role a layer plays in the chain: the single entry layer, an inner
/// stage, or the single exit layer.
#[derive(Clone, Copy, PartialEq, Eq, Structural, Debug)]
pub enum LayerType {
    Input,
    Hidden,
    Output,
}

/// What every layer answers about itself: its role and its output width.
pub trait Layer {
    /// The role this layer plays in the chain.
    spec fn spec_type(&self) -> LayerType;

    /// The number of units this layer produces: its output width.
    spec fn spec_size(&self) -> usize;

    /// The number of units this layer consumes: its input width.
    spec fn spec_input_width(&self) -> usize;

    /// Returns the role of this layer.
    fn get_type(&self) -> (t: LayerType)
        ensures
            t == self.spec_type();

    /// Returns the output width of this layer.
    fn get_size(&self) -> (n: usize)
        ensures
            n == self.spec_size();
}

/// The entry layer: it consumes and produces the same number of units and
/// passes its input through unchanged.
#[derive(Debug)]
pub struct InputLayer {
    size: usize,
}

impl InputLayer {
    /// The layer's structural invariant: a positive width.
    pub open spec fn wf(&self) -> bool {
        self.spec_size() > 0
    }

    /// Builds an entry layer of the given width; a width of zero is refused.
    pub fn new(size: usize) -> (r: Result<InputLayer, ConstructionError>)
        ensures
            r is Ok <==> size > 0,
            r matches Ok(l) ==> l.spec_size() == size && l.wf(),
            r matches Err(e) ==> e == ConstructionError::ZeroWidth,
    {
        if size == 0 {
            Err(ConstructionError::ZeroWidth)
        } else {
            Ok(InputLayer { size })
        }
    }

    /// Builds an entry layer whose width is already known to be positive.
    pub(crate) fn from_width(size: usize) -> (l: InputLayer)
        requires
            size > 0,
        ensures
            l.spec_size() == size,
            l.wf(),
    {
        InputLayer { size }
    }

    /// Identity pass-through: returns the input unchanged when its length
    /// matches the layer's width, and refuses it otherwise — never a
    /// truncated or padded result.
    pub fn forward<T>(&self, input: Vec<T>) -> (r: Result<Vec<T>, DimensionError>)
        ensures
            input@.len() == self.spec_size() ==> (r matches Ok(out) && out == input),
            input@.len() != self.spec_size() ==> (r matches Err(e) && e == (DimensionError {
                expected: self.spec_size(),
                found: input.len() as usize,
            })),
    {
        if input.len() == self.size {
            Ok(input)
        } else {
            Err(DimensionError { expected: self.size, found: input.len() })
        }
    }
}

impl Layer for InputLayer {
    open spec fn spec_type(&self) -> LayerType {
        LayerType::Input
    }

    closed spec fn spec_size(&self) -> usize {
        self.size
    }

    /// An entry layer consumes exactly what it produces.
    open spec fn spec_input_width(&self) -> usize {
        self.spec_size()
    }

    fn get_type(&self) -> (t: LayerType) {
        LayerType::Input
    }

    fn get_size(&self) -> (n: usize) {
        self.size
    }
}

/// An inner fully-connected stage: `neurons` units, each fed by every unit
/// of the previous layer, followed by the activation function.
#[derive(Debug)]
pub struct HiddenLayer {
    input_width: usize,
    neurons: usize,
    activation_function: ActivationFunction,
}

impl HiddenLayer {
    /// The activation tag this layer was configured with.
    pub closed spec fn spec_activation(&self) -> ActivationFunction {
        self.activation_function
    }

    /// The layer's structural invariant: positive widths.
    pub open spec fn wf(&self) -> bool {
        self.spec_size() > 0 && self.spec_input_width() > 0
    }

    /// Builds an inner stage of `size` units fed by `input_width` units;
    /// a width of zero on either side is refused.
    pub fn new(input_width: usize, size: usize, activation_function: ActivationFunction) -> (r:
        Result<HiddenLayer, ConstructionError>)
        ensures
            r is Ok <==> (input_width > 0 && size > 0),
            r matches Ok(l) ==> l.spec_input_width() == input_width && l.spec_size() == size
                && l.spec_activation() == activation_function && l.wf(),
            r matches Err(e) ==> e == ConstructionError::ZeroWidth,
    {
        if input_width == 0 || size == 0 {
            Err(ConstructionError::ZeroWidth)
        } else {
            Ok(HiddenLayer { input_width, neurons: size, activation_function })
        }
    }

    /// Builds an inner stage whose widths are already known to be positive.
    pub(crate) fn from_widths(
        input_width: usize,
        neurons: usize,
        activation_function: ActivationFunction,
    ) -> (l: HiddenLayer)
        requires
            input_width > 0,
            neurons > 0,
        ensures
            l.spec_input_width() == input_width,
            l.spec_size() == neurons,
            l.spec_activation() == activation_function,
            l.wf(),
    {
        HiddenLayer { input_width, neurons, activation_function }
    }

    /// Returns the activation tag this layer was configured with.
    pub fn get_activation(&self) -> (a: ActivationFunction)
        ensures
            a == self.spec_activation(),
    {
        self.activation_function
    }

    /// Returns the input width this layer was configured with.
    pub fn get_input_width(&self) -> (n: usize)
        ensures
            n == self.spec_input_width(),
    {
        self.input_width
    }

    /// How many weights the layer's matrix holds: one scalar per
    /// (output unit, input unit) pair. The caller sizes its weight storage
    /// by this; `None` reports that the count does not fit in `usize`.
    pub fn weight_count(&self) -> (r: Option<usize>)
        ensures
            r matches Some(n) ==> n == self.spec_size() * self.spec_input_width(),
            r is None <==> self.spec_size() * self.spec_input_width() > usize::MAX,
    {
        self.neurons.checked_mul(self.input_width)
    }

    /// The dimension gate of a forward pass through this layer: a vector of
    /// length `input_len` may enter exactly when it matches the layer's
    /// input width; otherwise the pass is refused, with the expected and
    /// offered lengths, before any work is done.
    pub fn check_forward(&self, input_len: usize) -> (r: Result<(), DimensionError>)
        ensures
            r is Ok <==> input_len == self.spec_input_width(),
            r matches Err(e) ==> e == (DimensionError {
                expected: self.spec_input_width(),
                found: input_len,
            }),
    {
        if input_len == self.input_width {
            Ok(())
        } else {
            Err(DimensionError { expected: self.input_width, found: input_len })
        }
    }

    /// The dimension gate of a backward pass through this layer: the
    /// layer's forward input must match its input width and the incoming
    /// error signal its output width. The input vector is checked first, so
    /// a refusal names the first mismatch; nothing is updated on a refusal.
    pub fn check_backward(&self, input_len: usize, error_len: usize) -> (r: Result<
        (),
        DimensionError,
    >)
        ensures
            r is Ok <==> (input_len == self.spec_input_width() && error_len == self.spec_size()),
            input_len != self.spec_input_width() ==> (r matches Err(e) && e == (DimensionError {
                expected: self.spec_input_width(),
                found: input_len,
            })),
            input_len == self.spec_input_width() && error_len != self.spec_size() ==> (
            r matches Err(e) && e == (DimensionError { expected: self.spec_size(), found: error_len })),
    {
        self.check_forward(input_len)?;
        if error_len == self.neurons {
            Ok(())
        } else {
            Err(DimensionError { expected: self.neurons, found: error_len })
        }
    }
}

impl Layer for HiddenLayer {
    open spec fn spec_type(&self) -> LayerType {
        LayerType::Hidden
    }

    closed spec fn spec_size(&self) -> usize {
        self.neurons
    }

    closed spec fn spec_input_width(&self) -> usize {
        self.input_width
    }

    fn get_type(&self) -> (t: LayerType) {
        LayerType::Hidden
    }

    fn get_size(&self) -> (n: usize) {
        self.neurons
    }
}

/// The exit layer: the same affine-plus-activation stage as an inner one,
/// but its output is the model's final output.
#[derive(Debug)]
pub struct OutputLayer {
    input_width: usize,
    size: usize,
    activation_function: ActivationFunction,
}

impl OutputLayer {
    /// The activation tag this layer was configured with.
    pub closed spec fn spec_activation(&self) -> ActivationFunction {
        self.activation_function
    }

    /// The layer's structural invariant: positive widths.
    pub open spec fn wf(&self) -> bool {
        self.spec_size() > 0 && self.spec_input_width() > 0
    }

    /// Builds an exit layer of `size` units fed by `input_width` units;
    /// a width of zero on either side is refused.
    pub fn new(input_width: usize, size: usize, activation_function: ActivationFunction) -> (r:
        Result<OutputLayer, ConstructionError>)
        ensures
            r is Ok <==> (input_width > 0 && size > 0),
            r matches Ok(l) ==> l.spec_input_width() == input_width && l.spec_size() == size
                && l.spec_activation() == activation_function && l.wf(),
            r matches Err(e) ==> e == ConstructionError::ZeroWidth,
    {
        if input_width == 0 || size == 0 {
            Err(ConstructionError::ZeroWidth)
        } else {
            Ok(OutputLayer { input_width, size, activation_function })
        }
    }

    /// Builds an exit layer whose widths are already known to be positive.
    pub(crate) fn from_widths(
        input_width: usize,
        size: usize,
        activation_function: ActivationFunction,
    ) -> (l: OutputLayer)
        requires
            input_width > 0,
            size > 0,
        ensures
            l.spec_input_width() == input_width,
            l.spec_size() == size,
            l.spec_activation() == activation_function,
            l.wf(),
    {
        OutputLayer { input_width, size, activation_function }
    }

    /// Returns the activation tag this layer was configured with.
    pub fn get_activation(&self) -> (a: ActivationFunction)
        ensures
            a == self.spec_activation(),
    {
        self.activation_function
    }

    /// Returns the input width this layer was configured with.
    pub fn get_input_width(&self) -> (n: usize)
        ensures
            n == self.spec_input_width(),
    {
        self.input_width
    }

    /// How many weights the layer's matrix holds: one scalar per
    /// (output unit, input unit) pair. The caller sizes its weight storage
    /// by this; `None` reports that the count does not fit in `usize`.
    pub fn weight_count(&self) -> (r: Option<usize>)
        ensures
            r matches Some(n) ==> n == self.spec_size() * self.spec_input_width(),
            r is None <==> self.spec_size() * self.spec_input_width() > usize::MAX,
    {
        self.size.checked_mul(self.input_width)
    }

    /// The dimension gate of a forward pass through this layer: a vector of
    /// length `input_len` may enter exactly when it matches the layer's
    /// input width; otherwise the pass is refused, with the expected and
    /// offered lengths, before any work is done.
    pub fn check_forward(&self, input_len: usize) -> (r: Result<(), DimensionError>)
        ensures
            r is Ok <==> input_len == self.spec_input_width(),
            r matches Err(e) ==> e == (DimensionError {
                expected: self.spec_input_width(),
                found: input_len,
            }),
    {
        if input_len == self.input_width {
            Ok(())
        } else {
            Err(DimensionError { expected: self.input_width, found: input_len })
        }
    }

    /// The dimension gate of a backward pass through this layer: the
    /// layer's forward input must match its input width and the incoming
    /// error signal its output width. The input vector is checked first, so
    /// a refusal names the first mismatch; nothing is updated on a refusal.
    pub fn check_backward(&self, input_len: usize, error_len: usize) -> (r: Result<
        (),
        DimensionError,
    >)
        ensures
            r is Ok <==> (input_len == self.spec_input_width() && error_len == self.spec_size()),
            input_len != self.spec_input_width() ==> (r matches Err(e) && e == (DimensionError {
                expected: self.spec_input_width(),
                found: input_len,
            })),
            input_len == self.spec_input_width() && error_len != self.spec_size() ==> (
            r matches Err(e) && e == (DimensionError { expected: self.spec_size(), found: error_len })),
    {
        self.check_forward(input_len)?;
        if error_len == self.size {
            Ok(())
        } else {
            Err(DimensionError { expected: self.size, found: error_len })
        }
    }
}

impl Layer for OutputLayer {
    open spec fn spec_type(&self) -> LayerType {
        LayerType::Output
    }

    closed spec fn spec_size(&self) -> usize {
        self.size
    }

    closed spec fn spec_input_width(&self) -> usize {
        self.input_width
    }

    fn get_type(&self) -> (t: LayerType) {
        LayerType::Output
    }

    fn get_size(&self) -> (n: usize) {
        self.size
    }
}

} // verus!
