//! The model: an ordered chain of layers with matching widths.
//!
//! A model owns exactly one entry layer, zero or more inner stages, and one
//! exit layer. Its invariant is the adjacency of the chain: every layer
//! consumes exactly as many units as the layer before it produces, and every
//! width is positive. The invariant is established once, by `new`, and holds
//! for the model's whole life; the read-only accessors expose it, and the
//! dimension checks decide — exactly — which vectors a pass through the
//! model accepts.

use vstd::prelude::*;

use crate::activation::ActivationFunction;
use crate::error::ConstructionError;
use crate::error::DimensionError;
use crate::layer::HiddenLayer;
use crate::layer::InputLayer;
use crate::layer::Layer;
use crate::layer::LayerType;
use crate::layer::OutputLayer;

verus! {

/// Whether a construction plan is acceptable: at least an input and an
/// output width, every width positive, and one activation choice per
/// non-input layer.
pub open spec fn valid_plan(widths: Seq<usize>, activations: Seq<ActivationFunction>) -> bool {
    &&& widths.len() >= 2
    &&& (forall|i: int| 0 <= i < widths.len() ==> widths[i] > 0)
    &&& activations.len() == widths.len() - 1
}

/// An ordered chain of layers: one entry layer, inner stages, one exit
/// layer, with adjacent widths equal.
#[derive(Debug)]
pub struct Model {
    input: InputLayer,
    hidden: Vec<HiddenLayer>,
    output: OutputLayer,
}

impl Model {
    /// How many layers the chain holds, the entry and exit layers included.
    pub closed spec fn spec_layer_count(&self) -> nat {
        self.hidden@.len() + 2
    }

    /// The output width of the layer at position `i` in the chain.
    pub closed spec fn spec_width_of(&self, i: int) -> usize {
        if i == 0 {
            self.input.spec_size()
        } else if i <= self.hidden@.len() {
            self.hidden@[i - 1].spec_size()
        } else {
            self.output.spec_size()
        }
    }

    /// The input width of the layer at position `i` in the chain.
    pub closed spec fn spec_input_width_of(&self, i: int) -> usize {
        if i == 0 {
            self.input.spec_input_width()
        } else if i <= self.hidden@.len() {
            self.hidden@[i - 1].spec_input_width()
        } else {
            self.output.spec_input_width()
        }
    }

    /// The output widths of all layers, in chain order.
    pub open spec fn spec_widths(&self) -> Seq<usize> {
        Seq::new(self.spec_layer_count(), |i: int| self.spec_width_of(i))
    }

    /// The role of the layer at position `i` in the chain.
    pub open spec fn spec_role_of(&self, i: int) -> LayerType {
        if i == 0 {
            LayerType::Input
        } else if i < self.spec_layer_count() - 1 {
            LayerType::Hidden
        } else {
            LayerType::Output
        }
    }

    /// The activation tag of the layer at position `i` in the chain. The
    /// entry layer applies no transform, which is the identity.
    pub closed spec fn spec_activation_of(&self, i: int) -> ActivationFunction {
        if i == 0 {
            ActivationFunction::Identity
        } else if i <= self.hidden@.len() {
            self.hidden@[i - 1].spec_activation()
        } else {
            self.output.spec_activation()
        }
    }

    /// The width of the vectors the model consumes.
    pub open spec fn spec_input_width(&self) -> usize {
        self.spec_width_of(0)
    }

    /// The width of the vectors the model produces.
    pub open spec fn spec_output_width(&self) -> usize {
        self.spec_width_of(self.spec_layer_count() - 1)
    }

    /// The chain invariant: positive widths everywhere, every layer's input
    /// width equal to the width of the layer before it, and the entry
    /// layer's identity shape.
    #[verifier::type_invariant]
    spec fn wf(&self) -> bool {
        &&& self.input.wf()
        &&& self.output.wf()
        &&& (forall|j: int| 0 <= j < self.hidden@.len() ==> (#[trigger] self.hidden@[j]).wf())
        &&& (forall|j: int|
            0 <= j < self.hidden@.len() ==> (#[trigger] self.hidden@[j]).spec_input_width()
                == self.spec_width_of(j))
        &&& self.output.spec_input_width() == self.spec_width_of(self.hidden@.len() as int)
        &&& self.hidden@.len() + 2 <= usize::MAX
    }

    /// Builds a model from the widths of its layers and one activation
    /// choice per non-input layer: an entry layer of width `layer_widths[0]`,
    /// an inner stage per intermediate width, and an exit layer of the final
    /// width, wired so that adjacent widths match. Construction is refused —
    /// and nothing is built — when fewer than two widths are given, when any
    /// width is zero, or when the activation count does not match.
    #[verifier::rlimit(50)]
    pub fn new(layer_widths: Vec<usize>, activations: Vec<ActivationFunction>) -> (r: Result<
        Model,
        ConstructionError,
    >)
        ensures
            r is Ok <==> valid_plan(layer_widths@, activations@),
            r matches Ok(m) ==> {
                &&& m.spec_widths() == layer_widths@
                &&& m.spec_layer_count() == layer_widths@.len()
                &&& (forall|i: int|
                    1 <= i < layer_widths@.len() ==> #[trigger] m.spec_activation_of(i)
                        == activations@[i - 1])
                &&& (forall|i: int|
                    1 <= i < layer_widths@.len() ==> #[trigger] m.spec_input_width_of(i)
                        == layer_widths@[i - 1])
                &&& m.spec_input_width_of(0) == layer_widths@[0]
            },
            layer_widths@.len() < 2 ==> (r matches Err(e) && e
                == ConstructionError::TooFewLayers),
            layer_widths@.len() >= 2 && !(forall|i: int|
                0 <= i < layer_widths@.len() ==> layer_widths@[i] > 0) ==> (r matches Err(e)
                && e == ConstructionError::ZeroWidth),
            layer_widths@.len() >= 2 && (forall|i: int|
                0 <= i < layer_widths@.len() ==> layer_widths@[i] > 0) && activations@.len()
                != layer_widths@.len() - 1 ==> (r matches Err(e) && e
                == ConstructionError::ActivationCountMismatch),
    {
        let n = layer_widths.len();
        if n < 2 {
            return Err(ConstructionError::TooFewLayers);
        }
        let mut k: usize = 0;
        while k < n
            invariant
                n == layer_widths@.len(),
                2 <= n,
                k <= n,
                forall|i: int| 0 <= i < k ==> layer_widths@[i] > 0,
            decreases n - k,
        {
            if layer_widths[k] == 0 {
                return Err(ConstructionError::ZeroWidth);
            }
            k += 1;
        }
        if activations.len() != n - 1 {
            return Err(ConstructionError::ActivationCountMismatch);
        }

        let input = InputLayer::from_width(layer_widths[0]);
        let mut hidden: Vec<HiddenLayer> = Vec::new();
        let mut i: usize = 1;
        while i < n - 1
            invariant
                valid_plan(layer_widths@, activations@),
                n == layer_widths@.len(),
                1 <= i <= n - 1,
                hidden@.len() == i - 1,
                forall|j: int|
                    0 <= j < hidden@.len() ==> {
                        &&& (#[trigger] hidden@[j]).spec_size() == layer_widths@[j + 1]
                        &&& hidden@[j].spec_input_width() == layer_widths@[j]
                        &&& hidden@[j].spec_activation() == activations@[j]
                        &&& hidden@[j].wf()
                    },
            decreases n - i,
        {
            let l = HiddenLayer::from_widths(
                layer_widths[i - 1],
                layer_widths[i],
                activations[i - 1],
            );
            hidden.push(l);
            i += 1;
        }
        let output = OutputLayer::from_widths(
            layer_widths[n - 2],
            layer_widths[n - 1],
            activations[n - 2],
        );
        let m = Model { input, hidden, output };
        proof {
            assert(m.spec_widths() =~= layer_widths@);
        }
        Ok(m)
    }

    /// Returns how many layers the chain holds.
    pub fn layer_count(&self) -> (n: usize)
        ensures
            n == self.spec_layer_count(),
    {
        proof {
            use_type_invariant(self);
        }
        self.hidden.len() + 2
    }

    /// Returns the width of the vectors the model consumes.
    pub fn input_width(&self) -> (n: usize)
        ensures
            n == self.spec_input_width(),
            n > 0,
    {
        proof {
            use_type_invariant(self);
        }
        self.input.get_size()
    }

    /// Returns the width of the vectors the model produces.
    pub fn output_width(&self) -> (n: usize)
        ensures
            n == self.spec_output_width(),
            n > 0,
    {
        proof {
            use_type_invariant(self);
        }
        self.output.get_size()
    }

    /// Returns the output widths of all layers, in chain order; every width
    /// is positive.
    pub fn widths(&self) -> (r: Vec<usize>)
        ensures
            r@ == self.spec_widths(),
            r@.len() == self.spec_layer_count(),
            forall|i: int| 0 <= i < r@.len() ==> r@[i] > 0,
    {
        proof {
            use_type_invariant(self);
        }
        let mut r: Vec<usize> = Vec::new();
        r.push(self.input.get_size());
        let mut j: usize = 0;
        while j < self.hidden.len()
            invariant
                self.wf(),
                j <= self.hidden@.len(),
                r@.len() == j + 1,
                forall|i: int| 0 <= i <= j ==> r@[i] == self.spec_width_of(i),
            decreases self.hidden@.len() - j,
        {
            let l: &HiddenLayer = &self.hidden[j];
            r.push(l.get_size());
            j += 1;
        }
        r.push(self.output.get_size());
        proof {
            assert(r@ =~= self.spec_widths());
        }
        r
    }

    /// Returns the role of the layer at position `i`, or `None` when `i` is
    /// past the end of the chain.
    pub fn get_role(&self, i: usize) -> (r: Option<LayerType>)
        ensures
            r is Some <==> i < self.spec_layer_count(),
            r matches Some(t) ==> t == self.spec_role_of(i as int),
    {
        proof {
            use_type_invariant(self);
        }
        if i == 0 {
            Some(LayerType::Input)
        } else if i <= self.hidden.len() {
            Some(LayerType::Hidden)
        } else if i == self.hidden.len() + 1 {
            Some(LayerType::Output)
        } else {
            None
        }
    }

    /// Returns the output width of the layer at position `i`, or `None` when
    /// `i` is past the end of the chain.
    pub fn get_width(&self, i: usize) -> (r: Option<usize>)
        ensures
            r is Some <==> i < self.spec_layer_count(),
            r matches Some(w) ==> w == self.spec_width_of(i as int) && w > 0,
    {
        proof {
            use_type_invariant(self);
        }
        if i == 0 {
            Some(self.input.get_size())
        } else if i <= self.hidden.len() {
            let l: &HiddenLayer = &self.hidden[i - 1];
            Some(l.get_size())
        } else if i == self.hidden.len() + 1 {
            Some(self.output.get_size())
        } else {
            None
        }
    }

    /// Returns the input width of the layer at position `i`, or `None` when
    /// `i` is past the end of the chain. For every layer past the entry one,
    /// this equals the output width of the layer before it — the adjacency
    /// invariant of the chain — and the entry layer consumes exactly what it
    /// produces.
    pub fn get_input_width(&self, i: usize) -> (r: Option<usize>)
        ensures
            r is Some <==> i < self.spec_layer_count(),
            r matches Some(w) ==> w == self.spec_input_width_of(i as int),
            r matches Some(w) ==> w == self.spec_width_of(if i == 0 {
                0
            } else {
                i - 1
            }),
    {
        proof {
            use_type_invariant(self);
        }
        if i == 0 {
            Some(self.input.get_size())
        } else if i <= self.hidden.len() {
            let l: &HiddenLayer = &self.hidden[i - 1];
            Some(l.get_input_width())
        } else if i == self.hidden.len() + 1 {
            Some(self.output.get_input_width())
        } else {
            None
        }
    }

    /// Returns the activation tag of the layer at position `i`, or `None`
    /// when `i` is past the end of the chain.
    pub fn get_activation(&self, i: usize) -> (r: Option<ActivationFunction>)
        ensures
            r is Some <==> i < self.spec_layer_count(),
            r matches Some(a) ==> a == self.spec_activation_of(i as int),
    {
        proof {
            use_type_invariant(self);
        }
        if i == 0 {
            Some(ActivationFunction::Identity)
        } else if i <= self.hidden.len() {
            let l: &HiddenLayer = &self.hidden[i - 1];
            Some(l.get_activation())
        } else if i == self.hidden.len() + 1 {
            Some(self.output.get_activation())
        } else {
            None
        }
    }

    /// How many scalars the layer at chain position `i` owns: one weight per
    /// (output unit, input unit) pair and one bias per output unit. The
    /// entry layer, at position `0`, owns none.
    pub open spec fn spec_params_of(&self, i: int) -> int {
        self.spec_width_of(i) * (self.spec_width_of(i - 1) + 1)
    }

    /// How many scalars the layers at chain positions `1..=k` own together.
    pub open spec fn spec_param_count_upto(&self, k: int) -> int
        decreases k,
    {
        if k <= 0 {
            0
        } else {
            self.spec_param_count_upto(k - 1) + self.spec_params_of(k)
        }
    }

    /// How many scalars the whole model owns: every weight and every bias of
    /// every non-input layer.
    pub open spec fn spec_param_count(&self) -> int {
        self.spec_param_count_upto(self.spec_layer_count() - 1)
    }

    /// The partial parameter counts grow with the position: every layer owns
    /// a nonnegative number of scalars.
    proof fn lemma_param_count_monotone(&self, a: int, b: int)
        requires
            0 <= a <= b,
        ensures
            self.spec_param_count_upto(a) <= self.spec_param_count_upto(b),
        decreases b - a,
    {
        if a < b {
            self.lemma_param_count_monotone(a, b - 1);
            vstd::arithmetic::mul::lemma_mul_nonnegative(
                self.spec_width_of(b) as int,
                self.spec_width_of(b - 1) as int + 1,
            );
        }
    }

    /// Returns how many scalars the whole model owns — the exact size a
    /// persistence collaborator must reserve to serialize every weight and
    /// bias — or `None` when that count does not fit in `usize`.
    pub fn param_count(&self) -> (r: Option<usize>)
        ensures
            r matches Some(n) ==> n == self.spec_param_count(),
            r is None <==> self.spec_param_count() > usize::MAX,
    {
        proof {
            use_type_invariant(self);
        }
        let n_layers = self.layer_count();
        let mut total: usize = 0;
        let mut k: usize = 1;
        while k < n_layers
            invariant
                self.wf(),
                n_layers == self.spec_layer_count(),
                1 <= k <= n_layers,
                total == self.spec_param_count_upto(k - 1),
            decreases n_layers - k,
        {
            let rows = match self.get_width(k) {
                Some(w) => w,
                None => 0,
            };
            let cols = match self.get_width(k - 1) {
                Some(w) => w,
                None => 0,
            };
            let cols_and_bias = match cols.checked_add(1) {
                Some(c) => c,
                None => {
                    proof {
                        vstd::arithmetic::mul::lemma_mul_inequality(
                            1,
                            rows as int,
                            cols as int + 1,
                        );
                        self.lemma_param_count_monotone(k as int, self.spec_layer_count() - 1);
                    }
                    return None;
                },
            };
            let term = match rows.checked_mul(cols_and_bias) {
                Some(t) => t,
                None => {
                    proof {
                        self.lemma_param_count_monotone(k as int, self.spec_layer_count() - 1);
                    }
                    return None;
                },
            };
            total = match total.checked_add(term) {
                Some(t) => t,
                None => {
                    proof {
                        self.lemma_param_count_monotone(k as int, self.spec_layer_count() - 1);
                    }
                    return None;
                },
            };
            k += 1;
        }
        Some(total)
    }

    /// Decides whether a vector of length `len` may enter the model:
    /// accepted exactly when `len` is the model's input width, and refused
    /// with the expected and offered lengths otherwise.
    pub fn check_input(&self, len: usize) -> (r: Result<(), DimensionError>)
        ensures
            r is Ok <==> len == self.spec_input_width(),
            r matches Err(e) ==> e == (DimensionError {
                expected: self.spec_input_width(),
                found: len,
            }),
    {
        proof {
            use_type_invariant(self);
        }
        let expected = self.input.get_size();
        if len == expected {
            Ok(())
        } else {
            Err(DimensionError { expected, found: len })
        }
    }

    /// Decides whether a training pair may enter the model: the input vector
    /// must match the model's input width and the expected-output vector its
    /// output width. The input vector is checked first, so a refusal names
    /// the first mismatch.
    pub fn check_training_pair(&self, input_len: usize, expected_len: usize) -> (r: Result<
        (),
        DimensionError,
    >)
        ensures
            r is Ok <==> (input_len == self.spec_input_width() && expected_len
                == self.spec_output_width()),
            input_len != self.spec_input_width() ==> (r matches Err(e) && e == (DimensionError {
                expected: self.spec_input_width(),
                found: input_len,
            })),
            input_len == self.spec_input_width() && expected_len != self.spec_output_width()
                ==> (r matches Err(e) && e == (DimensionError {
                expected: self.spec_output_width(),
                found: expected_len,
            })),
    {
        self.check_input(input_len)?;
        proof {
            use_type_invariant(self);
        }
        let expected = self.output.get_size();
        if expected_len == expected {
            Ok(())
        } else {
            Err(DimensionError { expected, found: expected_len })
        }
    }
}

} // verus!
