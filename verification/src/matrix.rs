//! Transforms as the passes see them. The matrices and vectors of a frame live
//! in tables that the caller owns; a pass names them by slot and says how they
//! combine, and the device multiplies.

use vstd::prelude::*;

verus! {

/// Slot of a 4x4 transform in the caller's table of matrices.
#[derive(Clone, Copy, Debug, PartialEq, Eq, Structural)]
pub struct MatrixRef {
    pub slot: usize,
}

/// Slot of a homogeneous vector in the caller's table of vectors.
#[derive(Clone, Copy, Debug, PartialEq, Eq, Structural)]
pub struct VectorRef {
    pub slot: usize,
}

/// A 4x4 matrix built from matrices of the caller's table. In a product the
/// leftmost factor is applied last.
#[derive(Clone, Copy, Debug, PartialEq, Eq, Structural)]
pub enum Matrix {
    /// The matrix in the slot.
    Slot(MatrixRef),
    /// `a * b`.
    Product2(MatrixRef, MatrixRef),
    /// `a * b * c`.
    Product3(MatrixRef, MatrixRef, MatrixRef),
    /// `a * b * c * d`.
    Product4(MatrixRef, MatrixRef, MatrixRef, MatrixRef),
    /// The matrix that transforms normals where `a * b` transforms positions:
    /// the inverse transpose of the upper 3x3 of `a * b`, extended by the
    /// identity.
    Normal(MatrixRef, MatrixRef),
}

} // verus!
