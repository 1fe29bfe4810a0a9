use vstd::pervasive::unreached;
use vstd::prelude::*;

use crate::blas_error::{BlasError, ErrorModel};
use crate::blas_opcode::BlasOpCode;
use crate::blas_tensor::{
    copy_bits_u32, filled_u32, from_vec_shape_result, BlasTensor, KindModel, TensorKind,
    TensorModel, TensorTag,
};
use crate::shape::{
    checked_folded_rows, copy_shape, folded_cols, folded_rows, last_dim, lemma_folded_product,
    rank_supported, shape_eq, shape_product,
};

verus! {

/// The four position-wise arithmetic kernels.
#[derive(Clone, Copy, Debug, PartialEq, Eq, Structural)]
pub enum ElementwiseKind {
    Add,
    Sub,
    Mul,
    Div,
}

/// The kernel classes that have a wiring in this snapshot: 32-bit float
/// elementwise arithmetic and the 32-bit float matrix product.
#[derive(Clone, Copy, Debug, PartialEq, Eq, Structural)]
pub enum WiredKernel {
    Elementwise(ElementwiseKind),
    Gemm,
}

/// The dispatch table: which kernel, if any, an opcode names. Every
/// opcode outside this table — among them the whole double-precision
/// column — is declared but unwired, and dispatching it fails explicitly.
pub open spec fn kernel_of(op: BlasOpCode) -> Option<WiredKernel> {
    match op {
        BlasOpCode::AddF => Some(WiredKernel::Elementwise(ElementwiseKind::Add)),
        BlasOpCode::SubF => Some(WiredKernel::Elementwise(ElementwiseKind::Sub)),
        BlasOpCode::MulF => Some(WiredKernel::Elementwise(ElementwiseKind::Mul)),
        BlasOpCode::DivF => Some(WiredKernel::Elementwise(ElementwiseKind::Div)),
        BlasOpCode::GemmF => Some(WiredKernel::Gemm),
        _ => None,
    }
}

/// Executable face of the dispatch table.
pub fn wired_kernel(op: BlasOpCode) -> (r: Option<WiredKernel>)
    ensures
        r == kernel_of(op),
{
    match op {
        BlasOpCode::AddF => Some(WiredKernel::Elementwise(ElementwiseKind::Add)),
        BlasOpCode::SubF => Some(WiredKernel::Elementwise(ElementwiseKind::Sub)),
        BlasOpCode::MulF => Some(WiredKernel::Elementwise(ElementwiseKind::Mul)),
        BlasOpCode::DivF => Some(WiredKernel::Elementwise(ElementwiseKind::Div)),
        BlasOpCode::GemmF => Some(WiredKernel::Gemm),
        _ => None,
    }
}

/// A fully validated elementwise kernel call: two equal-length 32-bit
/// float buffers and the common logical shape of the operands, which is
/// also the output's shape.
#[derive(Debug)]
pub struct ElementwiseJob {
    pub kind: ElementwiseKind,
    pub lhs: Vec<u32>,
    pub rhs: Vec<u32>,
    pub shape: Vec<usize>,
}

/// A fully validated matrix-product call: `rows x inner` times
/// `inner x cols` accumulated onto `acc`, which already holds
/// `rows * cols` entries; `shape` is the output's logical shape.
#[derive(Debug)]
pub struct GemmJob {
    pub rows: usize,
    pub inner: usize,
    pub cols: usize,
    pub lhs: Vec<u32>,
    pub rhs: Vec<u32>,
    pub acc: Vec<u32>,
    pub shape: Vec<usize>,
}

/// One backend call the executor has validated and routed. The host runs
/// the numeric kernel on it and folds the resulting buffer back into a
/// tensor with `BlasTensor::from_vec_shape` or `BlasExecutor::commit`.
#[derive(Debug)]
pub enum KernelJob {
    Elementwise(ElementwiseJob),
    Gemm(GemmJob),
}

/// Mathematical image of an `ElementwiseJob`.
pub struct ElementwiseJobModel {
    pub kind: ElementwiseKind,
    pub lhs: Seq<u32>,
    pub rhs: Seq<u32>,
    pub shape: Seq<usize>,
}

/// Mathematical image of a `GemmJob`.
pub struct GemmJobModel {
    pub rows: usize,
    pub inner: usize,
    pub cols: usize,
    pub lhs: Seq<u32>,
    pub rhs: Seq<u32>,
    pub acc: Seq<u32>,
    pub shape: Seq<usize>,
}

/// Mathematical image of a `KernelJob`.
pub enum KernelJobModel {
    Elementwise(ElementwiseJobModel),
    Gemm(GemmJobModel),
}

impl ElementwiseJobModel {
    /// What `prepare` guarantees of every elementwise job it emits.
    pub open spec fn wf(self) -> bool {
        &&& rank_supported(self.shape)
        &&& self.lhs.len() == shape_product(self.shape)
        &&& self.rhs.len() == self.lhs.len()
    }
}

impl GemmJobModel {
    /// What `prepare` guarantees of every matrix-product job it emits.
    pub open spec fn wf(self) -> bool {
        &&& self.lhs.len() == self.rows * self.inner
        &&& self.rhs.len() == self.inner * self.cols
        &&& self.acc.len() == self.rows * self.cols
        &&& 2 <= self.shape.len() <= 4
        &&& folded_rows(self.shape) == self.rows
        &&& folded_cols(self.shape) == self.cols
        &&& shape_product(self.shape) == self.acc.len()
    }
}

impl KernelJobModel {
    pub open spec fn wf(self) -> bool {
        match self {
            KernelJobModel::Elementwise(j) => j.wf(),
            KernelJobModel::Gemm(j) => j.wf(),
        }
    }
}

impl View for ElementwiseJob {
    type V = ElementwiseJobModel;

    open spec fn view(&self) -> ElementwiseJobModel {
        ElementwiseJobModel { kind: self.kind, lhs: self.lhs@, rhs: self.rhs@, shape: self.shape@ }
    }
}

impl View for GemmJob {
    type V = GemmJobModel;

    open spec fn view(&self) -> GemmJobModel {
        GemmJobModel {
            rows: self.rows,
            inner: self.inner,
            cols: self.cols,
            lhs: self.lhs@,
            rhs: self.rhs@,
            acc: self.acc@,
            shape: self.shape@,
        }
    }
}

impl View for KernelJob {
    type V = KernelJobModel;

    open spec fn view(&self) -> KernelJobModel {
        match self {
            KernelJob::Elementwise(j) => KernelJobModel::Elementwise(j@),
            KernelJob::Gemm(j) => KernelJobModel::Gemm(j@),
        }
    }
}

/// A job-or-error outcome, as its mathematical image.
pub open spec fn job_result_model(r: Result<KernelJob, BlasError>) -> Result<
    KernelJobModel,
    ErrorModel,
> {
    match r {
        Ok(j) => Ok(j@),
        Err(e) => Err(e@),
    }
}

/// Exact outcome of routing an elementwise kernel: the left operand must
/// be 32-bit float storage, the right operand must carry the same
/// variant, and the logical shapes must be identical — no broadcasting,
/// no coercion. The job carries both buffers unchanged and the common
/// shape.
pub open spec fn prepare_elementwise(
    kind: ElementwiseKind,
    l: TensorModel,
    r: TensorModel,
) -> Result<KernelJobModel, ErrorModel> {
    if !l.data.is_float32() {
        Err(ErrorModel::UnsupportedVariant { found: l.data.tag() })
    } else if l.data.tag() != r.data.tag() {
        Err(ErrorModel::VariantMismatch { lhs: l.data.tag(), rhs: r.data.tag() })
    } else if l.shape != r.shape {
        Err(ErrorModel::ShapeMismatch { lhs_shape: l.shape, rhs_shape: r.shape })
    } else {
        Ok(
            KernelJobModel::Elementwise(
                ElementwiseJobModel {
                    kind,
                    lhs: l.data.float32_data(),
                    rhs: r.data.float32_data(),
                    shape: l.shape,
                },
            ),
        )
    }
}

/// Shared operand gate of both matrix-product paths: two 32-bit float
/// matrices with machine-representable folded extents and matching inner
/// dimension.
pub open spec fn gemm_operands_check(l: TensorModel, r: TensorModel) -> Result<(), ErrorModel> {
    if l.data.tag() != TensorTag::FloatMatrix {
        Err(ErrorModel::UnsupportedVariant { found: l.data.tag() })
    } else if r.data.tag() != TensorTag::FloatMatrix {
        Err(ErrorModel::VariantMismatch { lhs: l.data.tag(), rhs: r.data.tag() })
    } else if folded_rows(l.shape) > usize::MAX {
        Err(ErrorModel::SizeOverflow)
    } else if folded_rows(r.shape) > usize::MAX {
        Err(ErrorModel::SizeOverflow)
    } else if folded_cols(l.shape) != folded_rows(r.shape) {
        Err(
            ErrorModel::DimMismatch {
                lhs_cols: l.shape.last(),
                rhs_rows: folded_rows(r.shape) as usize,
            },
        )
    } else {
        Ok(())
    }
}

/// Exact outcome of routing the owned matrix product: after the operand
/// gate, the output is a fresh zero accumulator of logical shape
/// `[rows, cols]`, so the accumulate-into-output convention degenerates
/// to a plain product.
pub open spec fn prepare_gemm_owned(l: TensorModel, r: TensorModel) -> Result<
    KernelJobModel,
    ErrorModel,
> {
    match gemm_operands_check(l, r) {
        Err(e) => Err(e),
        Ok(()) => {
            let rows = folded_rows(l.shape);
            let cols = folded_cols(r.shape);
            if rows * cols > usize::MAX {
                Err(ErrorModel::SizeOverflow)
            } else {
                Ok(
                    KernelJobModel::Gemm(
                        GemmJobModel {
                            rows: rows as usize,
                            inner: folded_cols(l.shape) as usize,
                            cols: cols as usize,
                            lhs: l.data.float32_data(),
                            rhs: r.data.float32_data(),
                            acc: Seq::new((rows * cols) as nat, |i: int| 0u32),
                            shape: seq![rows as usize, cols as usize],
                        },
                    ),
                )
            }
        },
    }
}

/// Exact outcome of routing the in-place matrix product: the caller's
/// output is checked first, before the operands — it must be a
/// 32-bit float matrix whose folded extent matches the operands — and its
/// current contents become the accumulator, so the kernel adds the
/// product onto whatever the output already holds. The output keeps its
/// own logical shape.
pub open spec fn prepare_gemm_side_effect(
    l: TensorModel,
    r: TensorModel,
    out: TensorModel,
) -> Result<KernelJobModel, ErrorModel> {
    if out.data.tag() != TensorTag::FloatMatrix {
        Err(ErrorModel::UnsupportedVariant { found: out.data.tag() })
    } else {
        match gemm_operands_check(l, r) {
            Err(e) => Err(e),
            Ok(()) => {
                let rows = folded_rows(l.shape);
                let cols = folded_cols(r.shape);
                if folded_rows(out.shape) > usize::MAX {
                    Err(ErrorModel::SizeOverflow)
                } else if folded_rows(out.shape) != rows || folded_cols(out.shape) != cols {
                    Err(
                        ErrorModel::OutputShapeMismatch {
                            expected_rows: rows as usize,
                            expected_cols: cols as usize,
                            actual_rows: folded_rows(out.shape) as usize,
                            actual_cols: out.shape.last(),
                        },
                    )
                } else {
                    Ok(
                        KernelJobModel::Gemm(
                            GemmJobModel {
                                rows: rows as usize,
                                inner: folded_cols(l.shape) as usize,
                                cols: cols as usize,
                                lhs: l.data.float32_data(),
                                rhs: r.data.float32_data(),
                                acc: out.data.float32_data(),
                                shape: out.shape,
                            },
                        ),
                    )
                }
            },
        }
    }
}

/// Exact outcome of the owned dispatch path for every opcode.
pub open spec fn prepare_owned_result(op: BlasOpCode, l: TensorModel, r: TensorModel) -> Result<
    KernelJobModel,
    ErrorModel,
> {
    match kernel_of(op) {
        None => Err(ErrorModel::UnwiredOpCode { op }),
        Some(WiredKernel::Elementwise(kind)) => prepare_elementwise(kind, l, r),
        Some(WiredKernel::Gemm) => prepare_gemm_owned(l, r),
    }
}

/// Exact outcome of the in-place dispatch path for every opcode. The
/// elementwise kernels overwrite the output completely, so its prior
/// state plays no part; only the matrix product reads it, as the
/// accumulator.
pub open spec fn prepare_side_effect_result(
    op: BlasOpCode,
    l: TensorModel,
    r: TensorModel,
    out: TensorModel,
) -> Result<KernelJobModel, ErrorModel> {
    match kernel_of(op) {
        None => Err(ErrorModel::UnwiredOpCode { op }),
        Some(WiredKernel::Elementwise(kind)) => prepare_elementwise(kind, l, r),
        Some(WiredKernel::Gemm) => prepare_gemm_side_effect(l, r, out),
    }
}

/// Whether a tag is one of the two 32-bit float storage classes.
fn is_float32_tag(t: TensorTag) -> (r: bool)
    ensures
        r == (t == TensorTag::FloatVector || t == TensorTag::FloatMatrix),
{
    match t {
        TensorTag::FloatVector => true,
        TensorTag::FloatMatrix => true,
        _ => false,
    }
}

/// The 32-bit float buffer of a float32-class storage, borrowed.
fn float32_data_ref(k: &TensorKind) -> (r: &Vec<u32>)
    requires
        k@.is_float32(),
    ensures
        r@ == k@.float32_data(),
{
    match k {
        TensorKind::FloatVector(v) => v,
        TensorKind::FloatMatrix(v) => v,
        _ => unreached(),
    }
}

/// Validates and routes one elementwise call; shared by both ownership
/// paths, which prepare the identical job.
fn elementwise_job(kind: ElementwiseKind, lhs: &BlasTensor, rhs: &BlasTensor) -> (r: Result<
    KernelJob,
    BlasError,
>)
    requires
        lhs@.wf(),
        rhs@.wf(),
    ensures
        job_result_model(r) == prepare_elementwise(kind, lhs@, rhs@),
        r matches Ok(j) ==> j@.wf(),
{
    let lt = lhs.data.tag();
    let rt = rhs.data.tag();
    if !is_float32_tag(lt) {
        return Err(BlasError::UnsupportedVariant { found: lt });
    }
    if lt != rt {
        return Err(BlasError::VariantMismatch { lhs: lt, rhs: rt });
    }
    if !shape_eq(&lhs.shape, &rhs.shape) {
        return Err(
            BlasError::ShapeMismatch { lhs_shape: copy_shape(&lhs.shape), rhs_shape: copy_shape(&rhs.shape) },
        );
    }
    let lhs_bits = copy_bits_u32(float32_data_ref(&lhs.data));
    let rhs_bits = copy_bits_u32(float32_data_ref(&rhs.data));
    let shape = copy_shape(&lhs.shape);
    Ok(KernelJob::Elementwise(ElementwiseJob { kind, lhs: lhs_bits, rhs: rhs_bits, shape }))
}

/// Validates and routes the owned matrix product: a fresh zero
/// accumulator of logical shape `[rows, cols]`.
fn gemm_owned_job(lhs: &BlasTensor, rhs: &BlasTensor) -> (r: Result<KernelJob, BlasError>)
    requires
        lhs@.wf(),
        rhs@.wf(),
    ensures
        job_result_model(r) == prepare_gemm_owned(lhs@, rhs@),
        r matches Ok(j) ==> j@.wf(),
{
    let lt = lhs.data.tag();
    let rt = rhs.data.tag();
    if !(lt == TensorTag::FloatMatrix) {
        return Err(BlasError::UnsupportedVariant { found: lt });
    }
    if !(rt == TensorTag::FloatMatrix) {
        return Err(BlasError::VariantMismatch { lhs: lt, rhs: rt });
    }
    let rows = match checked_folded_rows(&lhs.shape) {
        Some(v) => v,
        None => {
            return Err(BlasError::SizeOverflow);
        },
    };
    let rhs_rows = match checked_folded_rows(&rhs.shape) {
        Some(v) => v,
        None => {
            return Err(BlasError::SizeOverflow);
        },
    };
    let inner = last_dim(&lhs.shape);
    let cols = last_dim(&rhs.shape);
    if inner != rhs_rows {
        return Err(BlasError::DimMismatch { lhs_cols: inner, rhs_rows });
    }
    let out_count = match rows.checked_mul(cols) {
        Some(v) => v,
        None => {
            return Err(BlasError::SizeOverflow);
        },
    };
    let acc = filled_u32(out_count, 0);
    let mut shape: Vec<usize> = Vec::new();
    shape.push(rows);
    shape.push(cols);
    let lhs_bits = copy_bits_u32(float32_data_ref(&lhs.data));
    let rhs_bits = copy_bits_u32(float32_data_ref(&rhs.data));
    let job = GemmJob { rows, inner, cols, lhs: lhs_bits, rhs: rhs_bits, acc, shape };
    proof {
        assert(job.shape@ =~= seq![rows, cols]);
        assert(job.acc@ =~= Seq::new(
            (folded_rows(lhs@.shape) * folded_cols(rhs@.shape)) as nat,
            |i: int| 0u32,
        ));
        lemma_folded_product(lhs@.shape);
        lemma_folded_product(rhs@.shape);
        assert(job@.shape.drop_last() =~= seq![rows]);
        assert(seq![rows].drop_last() =~= Seq::<usize>::empty());
        assert(shape_product(Seq::<usize>::empty()) == 1);
        assert(shape_product(seq![rows]) == 1 * rows);
        assert(shape_product(job@.shape) == (1 * rows) * cols);
        assert((1 * rows) * cols == rows * cols) by (nonlinear_arith);
    }
    Ok(KernelJob::Gemm(job))
}

/// Validates and routes the in-place matrix product: the caller's output
/// is checked first and its contents become the accumulator.
fn gemm_side_effect_job(lhs: &BlasTensor, rhs: &BlasTensor, out: &BlasTensor) -> (r: Result<
    KernelJob,
    BlasError,
>)
    requires
        lhs@.wf(),
        rhs@.wf(),
        out@.wf(),
    ensures
        job_result_model(r) == prepare_gemm_side_effect(lhs@, rhs@, out@),
        r matches Ok(j) ==> j@.wf(),
{
    let ot = out.data.tag();
    if !(ot == TensorTag::FloatMatrix) {
        return Err(BlasError::UnsupportedVariant { found: ot });
    }
    let lt = lhs.data.tag();
    let rt = rhs.data.tag();
    if !(lt == TensorTag::FloatMatrix) {
        return Err(BlasError::UnsupportedVariant { found: lt });
    }
    if !(rt == TensorTag::FloatMatrix) {
        return Err(BlasError::VariantMismatch { lhs: lt, rhs: rt });
    }
    let rows = match checked_folded_rows(&lhs.shape) {
        Some(v) => v,
        None => {
            return Err(BlasError::SizeOverflow);
        },
    };
    let rhs_rows = match checked_folded_rows(&rhs.shape) {
        Some(v) => v,
        None => {
            return Err(BlasError::SizeOverflow);
        },
    };
    let inner = last_dim(&lhs.shape);
    let cols = last_dim(&rhs.shape);
    if inner != rhs_rows {
        return Err(BlasError::DimMismatch { lhs_cols: inner, rhs_rows });
    }
    let out_rows = match checked_folded_rows(&out.shape) {
        Some(v) => v,
        None => {
            return Err(BlasError::SizeOverflow);
        },
    };
    let out_cols = last_dim(&out.shape);
    if out_rows != rows || out_cols != cols {
        return Err(
            BlasError::OutputShapeMismatch {
                expected_rows: rows,
                expected_cols: cols,
                actual_rows: out_rows,
                actual_cols: out_cols,
            },
        );
    }
    let acc = copy_bits_u32(float32_data_ref(&out.data));
    let shape = copy_shape(&out.shape);
    let lhs_bits = copy_bits_u32(float32_data_ref(&lhs.data));
    let rhs_bits = copy_bits_u32(float32_data_ref(&rhs.data));
    let job = GemmJob { rows, inner, cols, lhs: lhs_bits, rhs: rhs_bits, acc, shape };
    proof {
        lemma_folded_product(lhs@.shape);
        lemma_folded_product(rhs@.shape);
        lemma_folded_product(out@.shape);
    }
    Ok(KernelJob::Gemm(job))
}

/// Stateless dispatcher: validates operands, routes an opcode to its
/// kernel, and folds backend results back into tensors. It owns no
/// mutable resource and is safely reusable across calls.
#[derive(Debug)]
pub struct BlasExecutor {}

impl BlasExecutor {
    pub fn new() -> Self {
        Self {  }
    }

    /// The ownership-consuming dispatch path: both operands move in and
    /// are gone, whatever the outcome. On success the returned job is
    /// exactly what `prepare_owned_result` describes, and is well formed;
    /// every rejection is the distinct error that function names.
    pub fn prepare_owned(&self, op: BlasOpCode, lhs: BlasTensor, rhs: BlasTensor) -> (r: Result<
        KernelJob,
        BlasError,
    >)
        requires
            lhs@.wf(),
            rhs@.wf(),
        ensures
            job_result_model(r) == prepare_owned_result(op, lhs@, rhs@),
            r matches Ok(j) ==> j@.wf(),
    {
        match wired_kernel(op) {
            None => Err(BlasError::UnwiredOpCode { op }),
            Some(WiredKernel::Elementwise(kind)) => elementwise_job(kind, &lhs, &rhs),
            Some(WiredKernel::Gemm) => gemm_owned_job(&lhs, &rhs),
        }
    }

    /// The borrowing dispatch path: operands are only read; the
    /// caller-owned output is read only by the matrix product, as its
    /// accumulator.
    pub fn prepare_side_effect(
        &self,
        op: BlasOpCode,
        lhs: &BlasTensor,
        rhs: &BlasTensor,
        out: &BlasTensor,
    ) -> (r: Result<KernelJob, BlasError>)
        requires
            lhs@.wf(),
            rhs@.wf(),
            out@.wf(),
        ensures
            job_result_model(r) == prepare_side_effect_result(op, lhs@, rhs@, out@),
            r matches Ok(j) ==> j@.wf(),
    {
        match wired_kernel(op) {
            None => Err(BlasError::UnwiredOpCode { op }),
            Some(WiredKernel::Elementwise(kind)) => elementwise_job(kind, lhs, rhs),
            Some(WiredKernel::Gemm) => gemm_side_effect_job(lhs, rhs, out),
        }
    }

    /// Replaces the caller-owned output with the backend's result buffer
    /// under the given logical shape — fully, never partially. On any
    /// rejection the output is left untouched.
    pub fn commit(&self, out: &mut BlasTensor, shape: Vec<usize>, data: Vec<u32>) -> (r: Result<
        (),
        BlasError,
    >)
        ensures
            match from_vec_shape_result(data@, shape@) {
                Ok(m) => r matches Ok(u) && final(out)@ == m && final(out)@.wf(),
                Err(e) => (r matches Err(err) && err@ == e) && *final(out) == *old(out),
            },
    {
        match BlasTensor::from_vec_shape(data, shape) {
            Ok(t) => {
                *out = t;
                Ok(())
            },
            Err(e) => Err(e),
        }
    }
}


/// Dispatch-table equivalence: routing through the opcode table gives
/// exactly the directly named kernel — each single-precision elementwise
/// mnemonic its elementwise kernel, the single-precision matrix-product
/// mnemonic the matrix product — and every opcode outside the table the
/// explicit unwired-opcode rejection.
pub proof fn lemma_dispatch_equivalence(op: BlasOpCode, l: TensorModel, r: TensorModel)
    ensures
        prepare_owned_result(BlasOpCode::AddF, l, r) == prepare_elementwise(
            ElementwiseKind::Add,
            l,
            r,
        ),
        prepare_owned_result(BlasOpCode::SubF, l, r) == prepare_elementwise(
            ElementwiseKind::Sub,
            l,
            r,
        ),
        prepare_owned_result(BlasOpCode::MulF, l, r) == prepare_elementwise(
            ElementwiseKind::Mul,
            l,
            r,
        ),
        prepare_owned_result(BlasOpCode::DivF, l, r) == prepare_elementwise(
            ElementwiseKind::Div,
            l,
            r,
        ),
        prepare_owned_result(BlasOpCode::GemmF, l, r) == prepare_gemm_owned(l, r),
        kernel_of(op) is None ==> prepare_owned_result(op, l, r) == Err::<
            KernelJobModel,
            ErrorModel,
        >(ErrorModel::UnwiredOpCode { op }),
{
}

/// The two ownership paths agree on every elementwise opcode: the
/// borrowing path prepares the identical job as the consuming path,
/// whatever the caller's output currently holds — the elementwise
/// kernels overwrite it completely. Fed the same backend response, both
/// paths therefore yield the same tensor.
pub proof fn lemma_paths_agree_elementwise(
    op: BlasOpCode,
    l: TensorModel,
    r: TensorModel,
    out: TensorModel,
)
    requires
        kernel_of(op) matches Some(WiredKernel::Elementwise(_)),
    ensures
        prepare_side_effect_result(op, l, r, out) == prepare_owned_result(op, l, r),
{
}

/// The consuming matrix product is the in-place path run against a fresh
/// zero-filled output of the demanded shape: accumulating onto zero is
/// the plain product.
pub proof fn lemma_gemm_owned_is_accumulate_on_zero(
    l: TensorModel,
    r: TensorModel,
    out: TensorModel,
)
    requires
        prepare_gemm_owned(l, r) is Ok,
        out == (TensorModel {
            data: KindModel::FloatMatrix(
                Seq::new((folded_rows(l.shape) * folded_cols(r.shape)) as nat, |i: int| 0u32),
            ),
            shape: seq![
                folded_rows(l.shape) as usize,
                folded_cols(r.shape) as usize,
            ],
        }),
    ensures
        prepare_gemm_side_effect(l, r, out) == prepare_gemm_owned(l, r),
{
    let rows = folded_rows(l.shape);
    let cols = folded_cols(r.shape);
    assert(out.shape.len() == 2);
    assert(folded_rows(out.shape) == out.shape[0]);
    assert(out.shape[0] == rows as usize);
    assert(out.shape.last() == cols as usize);
}

/// Mixing a vector-variant and a matrix-variant operand in an
/// elementwise kernel is rejected as a variant mismatch — never
/// broadcast, never coerced.
pub proof fn lemma_mixed_rank_class_rejected(
    kind: ElementwiseKind,
    l: TensorModel,
    r: TensorModel,
)
    requires
        l.data.is_float32(),
        r.data.is_float32(),
        l.data.is_vector() != r.data.is_vector(),
    ensures
        prepare_elementwise(kind, l, r) == Err::<KernelJobModel, ErrorModel>(
            ErrorModel::VariantMismatch { lhs: l.data.tag(), rhs: r.data.tag() },
        ),
{
}

} // verus!
