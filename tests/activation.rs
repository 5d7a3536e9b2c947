use nnet_layers::activation::Activation;
use nnet_layers::shape::{Shape, ShapeError};
use rulinalg::matrix::{BaseMatrix, BaseMatrixMut, Matrix};

fn shape_of(m: &Matrix<f64>) -> Shape {
    Shape::new(m.rows(), m.cols())
}

fn square(x: f64) -> f64 {
    x * x
}

fn square_grad(x: f64) -> f64 {
    2.0 * x
}

#[test]
fn activation_has_no_params() {
    assert_eq!(Activation.param_shape(), (0, 0));
    assert_eq!(Activation.num_params(), 0);
    assert_eq!(Activation.back_params_shape(), Shape::new(0, 0));
}

#[test]
fn activation_forward_keeps_shape() {
    let input = Matrix::new(2, 2, vec![1.0, -2.0, 3.0, 0.5]);
    let out = input.clone().apply(&square);
    assert_eq!(Activation.forward_shape(shape_of(&input)), shape_of(&out));
    assert_eq!(out.data(), &vec![1.0, 4.0, 9.0, 0.25]);
}

#[test]
fn activation_back_input_is_chain_rule() {
    let input = Matrix::new(1, 3, vec![1.0, -2.0, 0.5]);
    let out_grad = Matrix::new(1, 3, vec![2.0, 1.0, -4.0]);
    let checked = Activation.back_input_shape(shape_of(&out_grad), shape_of(&input));
    assert_eq!(checked, Ok(Shape::new(1, 3)));
    let grad = out_grad.elemul(&input.clone().apply(&square_grad));
    assert_eq!(grad.data(), &vec![4.0, -4.0, -4.0]);
}

#[test]
fn activation_back_input_refuses_other_shape() {
    assert_eq!(
        Activation.back_input_shape(Shape::new(2, 3), Shape::new(3, 2)),
        Err(ShapeError::OutGrad { expected: Shape::new(3, 2), found: Shape::new(2, 3) })
    );
}
