//! Matrix shapes and the shape errors a layer reports.
use vstd::prelude::*;

verus! {

/// Row and column counts of a dense matrix.
#[derive(Clone, Copy, Debug, PartialEq, Eq, Structural)]
pub struct Shape {
    pub rows: usize,
    pub cols: usize,
}

impl Shape {
    pub fn new(rows: usize, cols: usize) -> (r: Shape)
        ensures
            r == (Shape { rows, cols }),
    {
        Shape { rows, cols }
    }
}

/// A mismatch between the shape a layer expects and the shape it was given.
#[derive(Clone, Copy, Debug, PartialEq, Eq, Structural)]
pub enum ShapeError {
    /// The parameter view does not have the layer's parameter shape.
    Params { expected: Shape, found: Shape },
    /// The input rows do not have the layer's number of input features.
    InputCols { expected_cols: usize, found_cols: usize },
    /// The output gradient does not have the shape of the layer's output.
    OutGrad { expected: Shape, found: Shape },
}

} // verus!
