//! A thin, fixed-surface instruction layer over dense numeric
//! linear-algebra primitives.
//!
//! Tensors are a closed set of dtype/rank storage variants paired with a
//! logical shape of rank 1 to 4; logical ranks 3 and 4 are folded onto
//! rank-2 physical storage. A stateless executor routes binary operations
//! (elementwise arithmetic, matrix multiply) by opcode to the matching
//! typed kernel, either consuming its operands or writing into a
//! caller-owned output.
//!
//! Floating-point buffers are held as IEEE-754 bit patterns in unsigned
//! integer vectors, so the representation, shape-folding and dispatch
//! rules are all stated and proved over plain values. The numeric kernels
//! themselves (elementwise float arithmetic, GEMM, random sampling) are
//! delegated to an external dense-array backend: the executor prepares a
//! fully validated kernel job, an unverified host runs the backend on it,
//! and the result is folded back into a tensor here.

pub mod blas_error;
pub mod blas_executor;
pub mod blas_opcode;
pub mod blas_tensor;
pub mod float_bits;
pub mod shape;

pub use blas_error::BlasError;
pub use blas_executor::BlasExecutor;
pub use blas_opcode::BlasOpCode;
pub use blas_tensor::{BlasTensor, TensorKind};
