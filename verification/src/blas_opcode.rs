use vstd::prelude::*;

verus! {

/// Closed set of operation mnemonics: an operation kind crossed with an
/// element type (`F` for 32-bit floats, `D` for 64-bit floats).
///
/// Declaring a mnemonic does not promise a kernel. Dispatching an opcode
/// with no wired kernel is reported as an `UnwiredOpCode` error, never
/// silently routed to a different kernel; see `wired_kernel` in
/// `blas_executor`.
#[derive(Clone, Copy, Debug, PartialEq, Eq, Structural)]
pub enum BlasOpCode {
    AddF,
    AddD,
    SubF,
    SubD,
    MulF,
    MulD,
    DivF,
    DivD,
    GemmF,
    GemmD,
    GemvF,
    GemvD,
}

} // verus!
