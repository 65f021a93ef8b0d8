use neuralnet::activation::ActivationFunction;
use neuralnet::error::ConstructionError;
use neuralnet::error::DimensionError;
use neuralnet::layer::LayerType;
use neuralnet::model::Model;

fn and_gate_model() -> Model {
    Model::new(
        vec![2, 2, 1],
        vec![ActivationFunction::Sigmoid, ActivationFunction::Sigmoid],
    )
    .unwrap()
}

#[test]
fn model_new_builds_the_declared_chain() {
    let m = and_gate_model();
    assert_eq!(m.layer_count(), 3);
    assert_eq!(m.widths(), vec![2, 2, 1]);
    assert_eq!(m.input_width(), 2);
    assert_eq!(m.output_width(), 1);
}

#[test]
fn model_reports_roles_in_chain_order() {
    let m = and_gate_model();
    assert_eq!(m.get_role(0), Some(LayerType::Input));
    assert_eq!(m.get_role(1), Some(LayerType::Hidden));
    assert_eq!(m.get_role(2), Some(LayerType::Output));
    assert_eq!(m.get_role(3), None);
}

#[test]
fn model_reports_activations_in_chain_order() {
    let m = Model::new(
        vec![3, 4, 4, 2],
        vec![
            ActivationFunction::ReLU,
            ActivationFunction::TanH,
            ActivationFunction::Softmax,
        ],
    )
    .unwrap();
    assert_eq!(m.get_activation(0), Some(ActivationFunction::Identity));
    assert_eq!(m.get_activation(1), Some(ActivationFunction::ReLU));
    assert_eq!(m.get_activation(2), Some(ActivationFunction::TanH));
    assert_eq!(m.get_activation(3), Some(ActivationFunction::Softmax));
    assert_eq!(m.get_activation(4), None);
}

#[test]
fn model_adjacent_widths_match() {
    let m = Model::new(
        vec![3, 5, 4, 2],
        vec![
            ActivationFunction::Sigmoid,
            ActivationFunction::Sigmoid,
            ActivationFunction::Sigmoid,
        ],
    )
    .unwrap();
    let widths = m.widths();
    for i in 1..m.layer_count() {
        assert_eq!(m.get_input_width(i), Some(widths[i - 1]));
    }
    assert_eq!(m.get_input_width(0), Some(widths[0]));
    assert_eq!(m.get_input_width(m.layer_count()), None);
}

#[test]
fn model_without_hidden_layers_is_accepted() {
    let m = Model::new(vec![4, 3], vec![ActivationFunction::Softmax]).unwrap();
    assert_eq!(m.layer_count(), 2);
    assert_eq!(m.get_role(0), Some(LayerType::Input));
    assert_eq!(m.get_role(1), Some(LayerType::Output));
    assert_eq!(m.widths(), vec![4, 3]);
}

#[test]
fn model_new_refuses_too_few_widths() {
    let e = Model::new(vec![3], vec![]).unwrap_err();
    assert_eq!(e, ConstructionError::TooFewLayers);
    let e = Model::new(vec![], vec![]).unwrap_err();
    assert_eq!(e, ConstructionError::TooFewLayers);
}

#[test]
fn model_new_refuses_a_zero_width() {
    let e = Model::new(
        vec![2, 0, 1],
        vec![ActivationFunction::Sigmoid, ActivationFunction::Sigmoid],
    )
    .unwrap_err();
    assert_eq!(e, ConstructionError::ZeroWidth);
    let e = Model::new(
        vec![0, 2],
        vec![ActivationFunction::Sigmoid],
    )
    .unwrap_err();
    assert_eq!(e, ConstructionError::ZeroWidth);
}

#[test]
fn model_new_refuses_a_wrong_activation_count() {
    let e = Model::new(vec![2, 2, 1], vec![ActivationFunction::Sigmoid]).unwrap_err();
    assert_eq!(e, ConstructionError::ActivationCountMismatch);
    let e = Model::new(
        vec![2, 1],
        vec![ActivationFunction::Sigmoid, ActivationFunction::Sigmoid],
    )
    .unwrap_err();
    assert_eq!(e, ConstructionError::ActivationCountMismatch);
}

#[test]
fn param_count_totals_weights_and_biases() {
    // 2 units by 2 inputs plus 2 biases, then 1 unit by 2 inputs plus 1 bias.
    let m = and_gate_model();
    assert_eq!(m.param_count(), Some(9));
    // One dense stage: 3 units by 4 inputs plus 3 biases.
    let m = Model::new(vec![4, 3], vec![ActivationFunction::Sigmoid]).unwrap();
    assert_eq!(m.param_count(), Some(15));
}

#[test]
fn param_count_refuses_overflow() {
    let m = Model::new(
        vec![usize::MAX, usize::MAX],
        vec![ActivationFunction::Sigmoid],
    )
    .unwrap();
    assert_eq!(m.param_count(), None);
}

#[test]
fn check_input_accepts_exactly_the_declared_width() {
    let m = and_gate_model();
    assert!(m.check_input(2).is_ok());
    assert_eq!(
        m.check_input(3).unwrap_err(),
        DimensionError { expected: 2, found: 3 }
    );
    assert_eq!(
        m.check_input(0).unwrap_err(),
        DimensionError { expected: 2, found: 0 }
    );
}

#[test]
fn check_training_pair_checks_both_ends() {
    let m = and_gate_model();
    assert!(m.check_training_pair(2, 1).is_ok());
    assert_eq!(
        m.check_training_pair(3, 1).unwrap_err(),
        DimensionError { expected: 2, found: 3 }
    );
    assert_eq!(
        m.check_training_pair(2, 2).unwrap_err(),
        DimensionError { expected: 1, found: 2 }
    );
}
