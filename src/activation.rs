//! The elementwise activation layer.
use vstd::prelude::*;

use crate::shape::{Shape, ShapeError};

verus! {

/// The shape rules of a layer that applies a scalar function to each entry
/// of its input.
///
/// Such a layer has no parameters. Its output has the shape of its input,
/// and its input gradient is the output gradient times the function's
/// derivative at each input entry, so the two must have one shape.
#[derive(Clone, Copy, Debug, PartialEq, Eq, Structural)]
pub struct Activation;

/// The shape of the input gradient of an activation layer.
pub open spec fn activation_back_input(out_grad: Shape, input: Shape) -> Result<Shape, ShapeError> {
    if out_grad == input {
        Ok(input)
    } else {
        Err(ShapeError::OutGrad { expected: input, found: out_grad })
    }
}

impl Activation {
    /// The shape `(rows, cols)` of the layer's parameters: empty.
    pub fn param_shape(&self) -> (r: (usize, usize))
        ensures
            r == (0usize, 0usize),
    {
        (0, 0)
    }

    /// The number of parameters of the layer: none.
    pub fn num_params(&self) -> (r: usize)
        ensures
            r == 0,
    {
        let shape = self.param_shape();
        shape.0 * shape.1
    }

    /// The shape of the output: that of the input.
    pub fn forward_shape(&self, input: Shape) -> (r: Shape)
        ensures
            r == input,
    {
        input
    }

    /// Checks a call for the gradient with respect to the input, and gives
    /// the shape of that gradient: that of the input, which the output
    /// gradient must share.
    pub fn back_input_shape(&self, out_grad: Shape, input: Shape) -> (r: Result<Shape, ShapeError>)
        ensures
            r == activation_back_input(out_grad, input),
    {
        if out_grad == input {
            Ok(input)
        } else {
            Err(ShapeError::OutGrad { expected: input, found: out_grad })
        }
    }

    /// The shape of the gradient with respect to the parameters: always
    /// `0 x 0`.
    pub fn back_params_shape(&self) -> (r: Shape)
        ensures
            r == (Shape { rows: 0, cols: 0 }),
    {
        Shape::new(0, 0)
    }
}

/// Whenever an activation layer's input gradient is computed, it has the
/// shape of the input.
pub proof fn lemma_activation_back_input_has_input_shape(out_grad: Shape, input: Shape)
    ensures
        activation_back_input(out_grad, input) is Ok ==> activation_back_input(
            out_grad,
            input,
        )->Ok_0 == input,
{
}

} // verus!
