use neuralnet::activation::ActivationFunction;
use neuralnet::error::ConstructionError;
use neuralnet::error::DimensionError;
use neuralnet::layer::HiddenLayer;
use neuralnet::layer::InputLayer;
use neuralnet::layer::Layer;
use neuralnet::layer::LayerType;
use neuralnet::layer::OutputLayer;

#[test]
fn input_layer_reports_role_and_size() {
    let l = InputLayer::new(4).unwrap();
    assert_eq!(l.get_type(), LayerType::Input);
    assert_eq!(l.get_size(), 4);
}

#[test]
fn input_layer_refuses_zero_width() {
    assert_eq!(InputLayer::new(0).unwrap_err(), ConstructionError::ZeroWidth);
}

#[test]
fn input_layer_forward_is_identity() {
    let l = InputLayer::new(3).unwrap();
    let out = l.forward(vec![10usize, 20, 30]).unwrap();
    assert_eq!(out, vec![10, 20, 30]);
}

#[test]
fn input_layer_forward_is_identity_on_scalars() {
    let l = InputLayer::new(3).unwrap();
    let out = l.forward(vec![0.5f32, -1.25, 3.0]).unwrap();
    assert_eq!(out, vec![0.5f32, -1.25, 3.0]);
}

#[test]
fn input_layer_forward_refuses_wrong_length() {
    let l = InputLayer::new(3).unwrap();
    let e = l.forward(vec![1u32, 2]).unwrap_err();
    assert_eq!(e, DimensionError { expected: 3, found: 2 });
    let e = l.forward(vec![1u32, 2, 3, 4]).unwrap_err();
    assert_eq!(e, DimensionError { expected: 3, found: 4 });
}

#[test]
fn hidden_layer_reports_its_shape() {
    let l = HiddenLayer::new(2, 5, ActivationFunction::TanH).unwrap();
    assert_eq!(l.get_type(), LayerType::Hidden);
    assert_eq!(l.get_size(), 5);
    assert_eq!(l.get_input_width(), 2);
    assert_eq!(l.get_activation(), ActivationFunction::TanH);
    assert_eq!(l.weight_count(), Some(10));
}

#[test]
fn hidden_layer_refuses_zero_widths() {
    let e = HiddenLayer::new(0, 5, ActivationFunction::Sigmoid).unwrap_err();
    assert_eq!(e, ConstructionError::ZeroWidth);
    let e = HiddenLayer::new(5, 0, ActivationFunction::Sigmoid).unwrap_err();
    assert_eq!(e, ConstructionError::ZeroWidth);
}

#[test]
fn output_layer_reports_its_shape() {
    let l = OutputLayer::new(3, 2, ActivationFunction::Softmax).unwrap();
    assert_eq!(l.get_type(), LayerType::Output);
    assert_eq!(l.get_size(), 2);
    assert_eq!(l.get_input_width(), 3);
    assert_eq!(l.get_activation(), ActivationFunction::Softmax);
    assert_eq!(l.weight_count(), Some(6));
}

#[test]
fn output_layer_refuses_zero_widths() {
    let e = OutputLayer::new(0, 1, ActivationFunction::Sigmoid).unwrap_err();
    assert_eq!(e, ConstructionError::ZeroWidth);
    let e = OutputLayer::new(1, 0, ActivationFunction::Sigmoid).unwrap_err();
    assert_eq!(e, ConstructionError::ZeroWidth);
}

#[test]
fn hidden_layer_forward_gate_accepts_exactly_its_input_width() {
    let l = HiddenLayer::new(3, 2, ActivationFunction::Sigmoid).unwrap();
    assert!(l.check_forward(3).is_ok());
    assert_eq!(
        l.check_forward(2).unwrap_err(),
        DimensionError { expected: 3, found: 2 }
    );
}

#[test]
fn hidden_layer_backward_gate_checks_both_vectors() {
    let l = HiddenLayer::new(3, 2, ActivationFunction::Sigmoid).unwrap();
    assert!(l.check_backward(3, 2).is_ok());
    assert_eq!(
        l.check_backward(4, 2).unwrap_err(),
        DimensionError { expected: 3, found: 4 }
    );
    assert_eq!(
        l.check_backward(3, 1).unwrap_err(),
        DimensionError { expected: 2, found: 1 }
    );
}

#[test]
fn output_layer_gates_check_their_widths() {
    let l = OutputLayer::new(2, 1, ActivationFunction::Sigmoid).unwrap();
    assert!(l.check_forward(2).is_ok());
    assert_eq!(
        l.check_forward(0).unwrap_err(),
        DimensionError { expected: 2, found: 0 }
    );
    assert!(l.check_backward(2, 1).is_ok());
    assert_eq!(
        l.check_backward(2, 3).unwrap_err(),
        DimensionError { expected: 1, found: 3 }
    );
}

#[test]
fn weight_count_refuses_overflow() {
    let l = HiddenLayer::new(usize::MAX, 2, ActivationFunction::ReLU).unwrap();
    assert_eq!(l.weight_count(), None);
}

#[test]
fn softmax_is_the_only_joint_activation() {
    assert!(ActivationFunction::Softmax.applies_jointly());
    assert!(!ActivationFunction::Identity.applies_jointly());
    assert!(!ActivationFunction::Sigmoid.applies_jointly());
    assert!(!ActivationFunction::ReLU.applies_jointly());
    assert!(!ActivationFunction::LeakyReLU.applies_jointly());
    assert!(!ActivationFunction::TanH.applies_jointly());
}
