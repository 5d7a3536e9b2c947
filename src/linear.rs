//! The fully connected layer.
use vstd::prelude::*;

use crate::shape::{Shape, ShapeError};

verus! {

/// The abstract content of a [`Linear`] layer.
pub struct LinearDims {
    /// Rows of the parameter matrix: the input features, plus one for the
    /// bias row when there is a bias.
    pub input_size: usize,
    /// Columns of the parameter matrix: the output features.
    pub output_size: usize,
    pub has_bias: bool,
}

impl LinearDims {
    /// A bias layer reserves one parameter row for the bias weights.
    pub open spec fn wf(self) -> bool {
        self.has_bias ==> self.input_size >= 1
    }

    /// The layer `Linear::new(input_size, output_size)` builds.
    pub open spec fn with_bias(input_size: usize, output_size: usize) -> LinearDims {
        LinearDims { input_size: (input_size + 1) as usize, output_size, has_bias: true }
    }

    /// The layer `Linear::without_bias(input_size, output_size)` builds.
    pub open spec fn no_bias(input_size: usize, output_size: usize) -> LinearDims {
        LinearDims { input_size, output_size, has_bias: false }
    }

    /// The shape every parameter view handed to the layer must have.
    pub open spec fn param_shape(self) -> Shape {
        Shape { rows: self.input_size, cols: self.output_size }
    }

    /// The number of parameters of the layer.
    pub open spec fn num_params(self) -> int {
        self.input_size * self.output_size
    }

    /// The number of features of each input row, before the bias column.
    pub open spec fn input_cols(self) -> int {
        if self.has_bias {
            self.input_size - 1
        } else {
            self.input_size as int
        }
    }

    /// Checks common to all three operations, in the order they are made:
    /// the parameter view, then the input's features.
    pub open spec fn check_params_input(self, input: Shape, params: Shape) -> Option<ShapeError> {
        if params != self.param_shape() {
            Some(ShapeError::Params { expected: self.param_shape(), found: params })
        } else if input.cols != self.input_cols() {
            Some(ShapeError::InputCols { expected_cols: self.input_cols() as usize, found_cols: input.cols })
        } else {
            None
        }
    }

    /// The checks above, then the output gradient, which must have the
    /// shape of the output for this input.
    pub open spec fn check_backward(self, out_grad: Shape, input: Shape, params: Shape) -> Option<
        ShapeError,
    > {
        let out = Shape { rows: input.rows, cols: self.output_size };
        if self.check_params_input(input, params) is Some {
            self.check_params_input(input, params)
        } else if out_grad != out {
            Some(ShapeError::OutGrad { expected: out, found: out_grad })
        } else {
            None
        }
    }

    /// The shape of the forward output: one row per input row, one column
    /// per output feature.
    pub open spec fn forward(self, input: Shape, params: Shape) -> Result<Shape, ShapeError> {
        match self.check_params_input(input, params) {
            Some(e) => Err(e),
            None => Ok(Shape { rows: input.rows, cols: self.output_size }),
        }
    }

    /// The shape of the gradient with respect to the input: that of the
    /// input itself, without the bias column.
    pub open spec fn back_input(self, out_grad: Shape, input: Shape, params: Shape) -> Result<
        Shape,
        ShapeError,
    > {
        match self.check_backward(out_grad, input, params) {
            Some(e) => Err(e),
            None => Ok(input),
        }
    }

    /// The shape of the gradient with respect to the parameters: that of
    /// the parameters.
    pub open spec fn back_params(self, out_grad: Shape, input: Shape, params: Shape) -> Result<
        Shape,
        ShapeError,
    > {
        match self.check_backward(out_grad, input, params) {
            Some(e) => Err(e),
            None => Ok(self.param_shape()),
        }
    }
}

/// A fully connected layer with an optional bias term.
///
/// Its parameters form an `input_size x output_size` matrix. With a bias,
/// `input_size` counts one row more than the input has features: that last
/// row holds the bias weights, which meet a column of ones appended to the
/// input.
#[derive(Clone, Copy, Debug)]
pub struct Linear {
    input_size: usize,
    output_size: usize,
    has_bias: bool,
}

impl View for Linear {
    type V = LinearDims;

    closed spec fn view(&self) -> LinearDims {
        LinearDims {
            input_size: self.input_size,
            output_size: self.output_size,
            has_bias: self.has_bias,
        }
    }
}

impl Linear {
    #[verifier::type_invariant]
    spec fn inv(self) -> bool {
        self@.wf()
    }

    /// Construct a linear layer with a bias term.
    pub fn new(input_size: usize, output_size: usize) -> (r: Linear)
        requires
            input_size < usize::MAX,
        ensures
            r@ == LinearDims::with_bias(input_size, output_size),
    {
        Linear { input_size: input_size + 1, output_size, has_bias: true }
    }

    /// Construct a linear layer without a bias term.
    pub fn without_bias(input_size: usize, output_size: usize) -> (r: Linear)
        ensures
            r@ == LinearDims::no_bias(input_size, output_size),
    {
        Linear { input_size, output_size, has_bias: false }
    }

    /// The shape `(rows, cols)` of the layer's parameter matrix.
    pub fn param_shape(&self) -> (r: (usize, usize))
        ensures
            r.0 == self@.input_size,
            r.1 == self@.output_size,
    {
        (self.input_size, self.output_size)
    }

    /// The number of parameters of the layer.
    pub fn num_params(&self) -> (r: usize)
        requires
            self@.num_params() <= usize::MAX,
        ensures
            r == self@.num_params(),
    {
        let shape = self.param_shape();
        shape.0 * shape.1
    }

    /// Whether the layer has a bias term.
    pub fn has_bias(&self) -> (r: bool)
        ensures
            r == self@.has_bias,
    {
        self.has_bias
    }

    /// The number of features of each input row, before the bias column.
    pub fn input_cols(&self) -> (r: usize)
        ensures
            r == self@.input_cols(),
    {
        proof {
            use_type_invariant(self);
        }
        if self.has_bias {
            self.input_size - 1
        } else {
            self.input_size
        }
    }

    /// The number of output features.
    pub fn output_size(&self) -> (r: usize)
        ensures
            r == self@.output_size,
    {
        self.output_size
    }

    fn check_params_input(&self, input: Shape, params: Shape) -> (r: Option<ShapeError>)
        ensures
            r == self@.check_params_input(input, params),
    {
        let expected = Shape::new(self.input_size, self.output_size);
        let cols = self.input_cols();
        if params != expected {
            Some(ShapeError::Params { expected, found: params })
        } else if input.cols != cols {
            Some(ShapeError::InputCols { expected_cols: cols, found_cols: input.cols })
        } else {
            None
        }
    }

    fn check_backward(&self, out_grad: Shape, input: Shape, params: Shape) -> (r: Option<
        ShapeError,
    >)
        ensures
            r == self@.check_backward(out_grad, input, params),
    {
        let first = self.check_params_input(input, params);
        let out = Shape::new(input.rows, self.output_size);
        if first.is_some() {
            first
        } else if out_grad != out {
            Some(ShapeError::OutGrad { expected: out, found: out_grad })
        } else {
            None
        }
    }

    /// Checks a forward call on an input and a parameter view of these
    /// shapes, and gives the shape of its output.
    ///
    /// The forward output is the input, with a column of ones appended when
    /// the layer has a bias, multiplied by the parameter matrix.
    pub fn forward_shape(&self, input: Shape, params: Shape) -> (r: Result<Shape, ShapeError>)
        ensures
            r == self@.forward(input, params),
    {
        match self.check_params_input(input, params) {
            Some(e) => Err(e),
            None => Ok(Shape::new(input.rows, self.output_size)),
        }
    }

    /// Checks a call for the gradient with respect to the input, and gives
    /// the shape of that gradient.
    ///
    /// The gradient is the output gradient times the transpose of the
    /// parameter rows that [`Linear::weight_rows`] selects.
    pub fn back_input_shape(&self, out_grad: Shape, input: Shape, params: Shape) -> (r: Result<
        Shape,
        ShapeError,
    >)
        ensures
            r == self@.back_input(out_grad, input, params),
    {
        match self.check_backward(out_grad, input, params) {
            Some(e) => Err(e),
            None => Ok(input),
        }
    }

    /// Checks a call for the gradient with respect to the parameters, and
    /// gives the shape of that gradient.
    ///
    /// The gradient is the transpose of the input, with the column of ones
    /// appended when the layer has a bias, times the output gradient.
    pub fn back_params_shape(&self, out_grad: Shape, input: Shape, params: Shape) -> (r: Result<
        Shape,
        ShapeError,
    >)
        ensures
            r == self@.back_params(out_grad, input, params),
    {
        match self.check_backward(out_grad, input, params) {
            Some(e) => Err(e),
            None => Ok(Shape::new(self.input_size, self.output_size)),
        }
    }

    /// The indices of the parameter rows that carry weights of input
    /// features, in order: every row but the last, bias, row when the layer
    /// has a bias. The input gradient flows back through these rows only.
    pub fn weight_rows(&self) -> (r: Vec<usize>)
        ensures
            r@.len() == self@.input_cols(),
            forall|k: int| 0 <= k < r@.len() ==> r@[k] == k,
    {
        let n = self.input_cols();
        let mut rows: Vec<usize> = Vec::new();
        let mut k: usize = 0;
        while k < n
            invariant
                k <= n,
                rows@.len() == k,
                forall|j: int| 0 <= j < k ==> rows@[j] == j,
            decreases n - k,
        {
            rows.push(k);
            k = k + 1;
        }
        rows
    }
}

/// A layer with a bias, given `n` rows of `i` features and an `(i+1) x o`
/// parameter view, produces `n` rows of `o` outputs.
pub proof fn lemma_forward_shape_with_bias(n: usize, i: usize, o: usize)
    requires
        0 < n,
        0 < i,
        0 < o,
        i < usize::MAX,
    ensures
        LinearDims::with_bias(i, o).forward(
            Shape { rows: n, cols: i },
            Shape { rows: (i + 1) as usize, cols: o },
        ) == Ok::<Shape, ShapeError>(Shape { rows: n, cols: o }),
{
}

/// A layer without a bias, given `n` rows of `i` features and an `i x o`
/// parameter view, produces `n` rows of `o` outputs.
pub proof fn lemma_forward_shape_without_bias(n: usize, i: usize, o: usize)
    requires
        0 < n,
        0 < i,
        0 < o,
    ensures
        LinearDims::no_bias(i, o).forward(Shape { rows: n, cols: i }, Shape { rows: i, cols: o })
            == Ok::<Shape, ShapeError>(Shape { rows: n, cols: o }),
{
}

/// Whenever the gradient with respect to the input is computed, it has the
/// shape of the input as given, without the bias column.
pub proof fn lemma_back_input_has_input_shape(
    l: LinearDims,
    out_grad: Shape,
    input: Shape,
    params: Shape,
)
    ensures
        l.back_input(out_grad, input, params) is Ok ==> l.back_input(out_grad, input, params)->Ok_0
            == input,
{
}

/// Whenever the gradient with respect to the parameters is computed, it has
/// the layer's parameter shape.
pub proof fn lemma_back_params_has_param_shape(
    l: LinearDims,
    out_grad: Shape,
    input: Shape,
    params: Shape,
)
    ensures
        l.back_params(out_grad, input, params) is Ok ==> l.back_params(
            out_grad,
            input,
            params,
        )->Ok_0 == l.param_shape(),
{
}

/// A layer with `i` inputs and `o` outputs has `(i+1) * o` parameters with a
/// bias and `i * o` without, as many as its parameter shape holds.
pub proof fn lemma_num_params(i: usize, o: usize)
    requires
        i < usize::MAX,
    ensures
        LinearDims::with_bias(i, o).num_params() == (i + 1) * o,
        LinearDims::no_bias(i, o).num_params() == i * o,
        LinearDims::with_bias(i, o).num_params() == LinearDims::with_bias(i, o).param_shape().rows
            * LinearDims::with_bias(i, o).param_shape().cols,
        LinearDims::no_bias(i, o).num_params() == LinearDims::no_bias(i, o).param_shape().rows
            * LinearDims::no_bias(i, o).param_shape().cols,
{
}

} // verus!
