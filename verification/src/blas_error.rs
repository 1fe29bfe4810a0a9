use vstd::prelude::*;

use crate::blas_opcode::BlasOpCode;
use crate::blas_tensor::TensorTag;

verus! {

/// Everything that can go wrong in this layer, as a recoverable value.
///
/// Each decision point that rejects a request has its own variant with the
/// context of the rejection, so a host runtime can recover instead of
/// dying: rank violations and buffer/shape disagreements at construction,
/// variant and shape incompatibilities at kernel entry, dispatch of a
/// declared-but-unwired opcode, and backend-level conditions (dimension
/// mismatch, invalid sampler parameters) classified here rather than left
/// as opaque backend failures.
#[derive(Debug, PartialEq, Eq)]
pub enum BlasError {
    /// The logical rank was 0 or at least 5.
    UnsupportedRank { ndims: usize },
    /// A dimension product or folded extent does not fit in `usize`.
    SizeOverflow,
    /// The raw buffer's length disagrees with the shape's element count.
    LengthMismatch { expected: usize, actual: usize },
    /// The left operand (or, for the in-place matrix product, the output)
    /// carries a storage variant this kernel has no wiring for.
    UnsupportedVariant { found: TensorTag },
    /// The two operands carry different storage variants.
    VariantMismatch { lhs: TensorTag, rhs: TensorTag },
    /// Elementwise operands carry different logical shapes.
    ShapeMismatch { lhs_shape: Vec<usize>, rhs_shape: Vec<usize> },
    /// The matrix product's inner dimensions disagree.
    DimMismatch { lhs_cols: usize, rhs_rows: usize },
    /// The caller-owned output of the in-place matrix product does not
    /// have the folded extent the operands demand.
    OutputShapeMismatch {
        expected_rows: usize,
        expected_cols: usize,
        actual_rows: usize,
        actual_cols: usize,
    },
    /// The opcode is declared but has no kernel in this snapshot.
    UnwiredOpCode { op: BlasOpCode },
    /// A random constructor was given an unusable sampling range.
    InvalidRange,
    /// A random constructor was given an unusable standard deviation.
    InvalidDeviation,
}

/// Mathematical image of a `BlasError`: shape payloads become sequences.
pub enum ErrorModel {
    UnsupportedRank { ndims: usize },
    SizeOverflow,
    LengthMismatch { expected: usize, actual: usize },
    UnsupportedVariant { found: TensorTag },
    VariantMismatch { lhs: TensorTag, rhs: TensorTag },
    ShapeMismatch { lhs_shape: Seq<usize>, rhs_shape: Seq<usize> },
    DimMismatch { lhs_cols: usize, rhs_rows: usize },
    OutputShapeMismatch {
        expected_rows: usize,
        expected_cols: usize,
        actual_rows: usize,
        actual_cols: usize,
    },
    UnwiredOpCode { op: BlasOpCode },
    InvalidRange,
    InvalidDeviation,
}

impl View for BlasError {
    type V = ErrorModel;

    open spec fn view(&self) -> ErrorModel {
        match self {
            BlasError::UnsupportedRank { ndims } => ErrorModel::UnsupportedRank { ndims: *ndims },
            BlasError::SizeOverflow => ErrorModel::SizeOverflow,
            BlasError::LengthMismatch { expected, actual } => ErrorModel::LengthMismatch {
                expected: *expected,
                actual: *actual,
            },
            BlasError::UnsupportedVariant { found } => ErrorModel::UnsupportedVariant {
                found: *found,
            },
            BlasError::VariantMismatch { lhs, rhs } => ErrorModel::VariantMismatch {
                lhs: *lhs,
                rhs: *rhs,
            },
            BlasError::ShapeMismatch { lhs_shape, rhs_shape } => ErrorModel::ShapeMismatch {
                lhs_shape: lhs_shape@,
                rhs_shape: rhs_shape@,
            },
            BlasError::DimMismatch { lhs_cols, rhs_rows } => ErrorModel::DimMismatch {
                lhs_cols: *lhs_cols,
                rhs_rows: *rhs_rows,
            },
            BlasError::OutputShapeMismatch {
                expected_rows,
                expected_cols,
                actual_rows,
                actual_cols,
            } => ErrorModel::OutputShapeMismatch {
                expected_rows: *expected_rows,
                expected_cols: *expected_cols,
                actual_rows: *actual_rows,
                actual_cols: *actual_cols,
            },
            BlasError::UnwiredOpCode { op } => ErrorModel::UnwiredOpCode { op: *op },
            BlasError::InvalidRange => ErrorModel::InvalidRange,
            BlasError::InvalidDeviation => ErrorModel::InvalidDeviation,
        }
    }
}

} // verus!
