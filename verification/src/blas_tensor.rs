use vstd::prelude::*;

use crate::blas_error::{BlasError, ErrorModel};
use crate::shape::{
    checked_shape_product, lemma_product_nonneg, rank_supported, shape_product,
};

verus! {

/// The eight storage variants, as bare tags. Errors report these, and the
/// executor's compatibility checks compare them.
#[derive(Clone, Copy, Debug, PartialEq, Eq, Structural)]
pub enum TensorTag {
    FloatVector,
    FloatMatrix,
    DoubleVector,
    DoubleMatrix,
    Int32Vector,
    Int32Matrix,
    Int8Vector,
    Int8Matrix,
}

/// Tagged dense storage: a closed set of dtype/rank-class variants.
/// Exactly one variant is live per tensor; nothing converts between them
/// implicitly.
///
/// Floating-point buffers are held as IEEE-754 bit patterns (`u32` for
/// 32-bit floats, `u64` for 64-bit floats), so this layer can state and
/// prove its structural rules over plain integers while the numeric
/// kernels interpret the bits.
#[derive(Debug)]
pub enum TensorKind {
    FloatVector(Vec<u32>),
    FloatMatrix(Vec<u32>),
    DoubleVector(Vec<u64>),
    DoubleMatrix(Vec<u64>),
    Int32Vector(Vec<i32>),
    Int32Matrix(Vec<i32>),
    Int8Vector(Vec<i8>),
    Int8Matrix(Vec<i8>),
}

/// Mathematical image of `TensorKind`: each buffer as a sequence.
pub enum KindModel {
    FloatVector(Seq<u32>),
    FloatMatrix(Seq<u32>),
    DoubleVector(Seq<u64>),
    DoubleMatrix(Seq<u64>),
    Int32Vector(Seq<i32>),
    Int32Matrix(Seq<i32>),
    Int8Vector(Seq<i8>),
    Int8Matrix(Seq<i8>),
}

impl KindModel {
    pub open spec fn tag(self) -> TensorTag {
        match self {
            KindModel::FloatVector(_) => TensorTag::FloatVector,
            KindModel::FloatMatrix(_) => TensorTag::FloatMatrix,
            KindModel::DoubleVector(_) => TensorTag::DoubleVector,
            KindModel::DoubleMatrix(_) => TensorTag::DoubleMatrix,
            KindModel::Int32Vector(_) => TensorTag::Int32Vector,
            KindModel::Int32Matrix(_) => TensorTag::Int32Matrix,
            KindModel::Int8Vector(_) => TensorTag::Int8Vector,
            KindModel::Int8Matrix(_) => TensorTag::Int8Matrix,
        }
    }

    /// Number of stored elements, whatever the variant.
    pub open spec fn count(self) -> nat {
        match self {
            KindModel::FloatVector(s) => s.len(),
            KindModel::FloatMatrix(s) => s.len(),
            KindModel::DoubleVector(s) => s.len(),
            KindModel::DoubleMatrix(s) => s.len(),
            KindModel::Int32Vector(s) => s.len(),
            KindModel::Int32Matrix(s) => s.len(),
            KindModel::Int8Vector(s) => s.len(),
            KindModel::Int8Matrix(s) => s.len(),
        }
    }

    /// Physically one-dimensional storage.
    pub open spec fn is_vector(self) -> bool {
        self.tag() == TensorTag::FloatVector || self.tag() == TensorTag::DoubleVector
            || self.tag() == TensorTag::Int32Vector || self.tag() == TensorTag::Int8Vector
    }

    /// Storage the 32-bit float kernels accept.
    pub open spec fn is_float32(self) -> bool {
        self.tag() == TensorTag::FloatVector || self.tag() == TensorTag::FloatMatrix
    }

    /// The 32-bit float bit patterns, for a `is_float32` variant.
    pub open spec fn float32_data(self) -> Seq<u32> {
        match self {
            KindModel::FloatVector(s) => s,
            KindModel::FloatMatrix(s) => s,
            _ => Seq::empty(),
        }
    }
}

impl View for TensorKind {
    type V = KindModel;

    open spec fn view(&self) -> KindModel {
        match self {
            TensorKind::FloatVector(v) => KindModel::FloatVector(v@),
            TensorKind::FloatMatrix(v) => KindModel::FloatMatrix(v@),
            TensorKind::DoubleVector(v) => KindModel::DoubleVector(v@),
            TensorKind::DoubleMatrix(v) => KindModel::DoubleMatrix(v@),
            TensorKind::Int32Vector(v) => KindModel::Int32Vector(v@),
            TensorKind::Int32Matrix(v) => KindModel::Int32Matrix(v@),
            TensorKind::Int8Vector(v) => KindModel::Int8Vector(v@),
            TensorKind::Int8Matrix(v) => KindModel::Int8Matrix(v@),
        }
    }
}

impl TensorKind {
    /// The variant's bare tag.
    pub fn tag(&self) -> (t: TensorTag)
        ensures
            t == self@.tag(),
    {
        match self {
            TensorKind::FloatVector(_) => TensorTag::FloatVector,
            TensorKind::FloatMatrix(_) => TensorTag::FloatMatrix,
            TensorKind::DoubleVector(_) => TensorTag::DoubleVector,
            TensorKind::DoubleMatrix(_) => TensorTag::DoubleMatrix,
            TensorKind::Int32Vector(_) => TensorTag::Int32Vector,
            TensorKind::Int32Matrix(_) => TensorTag::Int32Matrix,
            TensorKind::Int8Vector(_) => TensorTag::Int8Vector,
            TensorKind::Int8Matrix(_) => TensorTag::Int8Matrix,
        }
    }

    /// Number of stored elements, whatever the variant.
    pub fn element_count(&self) -> (n: usize)
        ensures
            n == self@.count(),
    {
        match self {
            TensorKind::FloatVector(v) => v.len(),
            TensorKind::FloatMatrix(v) => v.len(),
            TensorKind::DoubleVector(v) => v.len(),
            TensorKind::DoubleMatrix(v) => v.len(),
            TensorKind::Int32Vector(v) => v.len(),
            TensorKind::Int32Matrix(v) => v.len(),
            TensorKind::Int8Vector(v) => v.len(),
            TensorKind::Int8Matrix(v) => v.len(),
        }
    }
}

/// A dense tensor: tagged physical storage of rank at most 2, paired with
/// the logical shape (rank 1 to 4) it realizes. Logical rank 3 folds onto
/// physical `[shape[0]*shape[1], shape[2]]`, rank 4 onto
/// `[shape[0]*shape[1]*shape[2], shape[3]]` — row-major, last dimension
/// contiguous.
#[derive(Debug)]
pub struct BlasTensor {
    pub data: TensorKind,
    pub shape: Vec<usize>,
}

/// Mathematical image of a `BlasTensor`.
pub struct TensorModel {
    pub data: KindModel,
    pub shape: Seq<usize>,
}

impl View for BlasTensor {
    type V = TensorModel;

    open spec fn view(&self) -> TensorModel {
        TensorModel { data: self.data@, shape: self.shape@ }
    }
}

impl TensorModel {
    /// The representation invariant every constructor establishes and
    /// every kernel preserves: a supported logical rank, storage holding
    /// exactly `product(shape)` elements, and one-dimensional storage
    /// exactly for logical rank 1.
    pub open spec fn wf(self) -> bool {
        &&& rank_supported(self.shape)
        &&& shape_product(self.shape) == self.data.count()
        &&& (self.data.is_vector() <==> self.shape.len() == 1)
    }
}

impl BlasTensor {
    /// Logical rank: the length of the logical shape, not of the folded
    /// physical one.
    pub fn ndims(&self) -> (n: usize)
        ensures
            n == self@.shape.len(),
    {
        self.shape.len()
    }

    /// The logical shape, never the folded physical shape.
    pub fn shape(&self) -> (s: Vec<usize>)
        ensures
            s@ == self@.shape,
    {
        crate::shape::copy_shape(&self.shape)
    }

    /// Runtime check of the representation invariant, for callers that
    /// assemble a tensor by hand.
    pub fn well_formed(&self) -> (r: bool)
        ensures
            r == self@.wf(),
    {
        let dims = self.shape.len();
        if dims < 1 || dims > 4 {
            return false;
        }
        let count = self.data.element_count();
        let matches_product = match checked_shape_product(&self.shape) {
            Some(n) => n == count,
            None => false,
        };
        if !matches_product {
            return false;
        }
        let tag = self.data.tag();
        let is_vec = match tag {
            TensorTag::FloatVector => true,
            TensorTag::DoubleVector => true,
            TensorTag::Int32Vector => true,
            TensorTag::Int8Vector => true,
            _ => false,
        };
        is_vec == (dims == 1)
    }
}

/// Bit pattern of the 32-bit float one, the fill value of `ones`.
pub const FLOAT32_ONE_BITS: u32 = 0x3F80_0000;

/// 32-bit float storage folded for a shape: physically one-dimensional
/// exactly for logical rank 1.
pub open spec fn float32_storage(shape: Seq<usize>, data: Seq<u32>) -> KindModel {
    if shape.len() == 1 {
        KindModel::FloatVector(data)
    } else {
        KindModel::FloatMatrix(data)
    }
}

/// 64-bit float storage folded for a shape.
pub open spec fn float64_storage(shape: Seq<usize>, data: Seq<u64>) -> KindModel {
    if shape.len() == 1 {
        KindModel::DoubleVector(data)
    } else {
        KindModel::DoubleMatrix(data)
    }
}

/// 32-bit integer storage folded for a shape.
pub open spec fn int32_storage(shape: Seq<usize>, data: Seq<i32>) -> KindModel {
    if shape.len() == 1 {
        KindModel::Int32Vector(data)
    } else {
        KindModel::Int32Matrix(data)
    }
}

/// What `zeros` builds on a valid shape.
pub open spec fn zeros_model(shape: Seq<usize>) -> TensorModel {
    TensorModel {
        data: float32_storage(
            shape,
            Seq::new(shape_product(shape) as nat, |i: int| 0u32),
        ),
        shape,
    }
}

/// What `ones` builds on a valid shape.
pub open spec fn ones_model(shape: Seq<usize>) -> TensorModel {
    TensorModel {
        data: float32_storage(
            shape,
            Seq::new(shape_product(shape) as nat, |i: int| FLOAT32_ONE_BITS),
        ),
        shape,
    }
}

/// What `zeros_double` builds on a valid shape.
pub open spec fn zeros_double_model(shape: Seq<usize>) -> TensorModel {
    TensorModel {
        data: float64_storage(
            shape,
            Seq::new(shape_product(shape) as nat, |i: int| 0u64),
        ),
        shape,
    }
}

/// What `from_vec` builds: a rank-1 tensor over the whole buffer.
pub open spec fn from_vec_model(data: Seq<u32>) -> TensorModel {
    TensorModel { data: KindModel::FloatVector(data), shape: seq![data.len() as usize] }
}

/// What `from_vec_shape` builds on valid arguments: the buffer stored
/// unchanged under the folded storage class — the folding moves no
/// element.
pub open spec fn from_vec_shape_model(data: Seq<u32>, shape: Seq<usize>) -> TensorModel {
    TensorModel { data: float32_storage(shape, data), shape }
}

/// What `from_vec_shape_i32` builds on valid arguments.
pub open spec fn from_vec_shape_i32_model(data: Seq<i32>, shape: Seq<usize>) -> TensorModel {
    TensorModel { data: int32_storage(shape, data), shape }
}

/// Outcome of a shape-only constructor: the rank gate, then the machine
/// limit on the element count.
pub open spec fn shape_constructor_check(shape: Seq<usize>) -> Result<(), ErrorModel> {
    if !rank_supported(shape) {
        Err(ErrorModel::UnsupportedRank { ndims: shape.len() as usize })
    } else if shape_product(shape) > usize::MAX {
        Err(ErrorModel::SizeOverflow)
    } else {
        Ok(())
    }
}

/// Exact outcome of `zeros`.
pub open spec fn zeros_result(shape: Seq<usize>) -> Result<TensorModel, ErrorModel> {
    match shape_constructor_check(shape) {
        Ok(()) => Ok(zeros_model(shape)),
        Err(e) => Err(e),
    }
}

/// Exact outcome of `ones`.
pub open spec fn ones_result(shape: Seq<usize>) -> Result<TensorModel, ErrorModel> {
    match shape_constructor_check(shape) {
        Ok(()) => Ok(ones_model(shape)),
        Err(e) => Err(e),
    }
}

/// Exact outcome of `zeros_double`.
pub open spec fn zeros_double_result(shape: Seq<usize>) -> Result<TensorModel, ErrorModel> {
    match shape_constructor_check(shape) {
        Ok(()) => Ok(zeros_double_model(shape)),
        Err(e) => Err(e),
    }
}

/// Exact outcome of `from_vec_shape`: the rank gate, then agreement of
/// the buffer's length with the shape's element count.
pub open spec fn from_vec_shape_result(data: Seq<u32>, shape: Seq<usize>) -> Result<
    TensorModel,
    ErrorModel,
> {
    if !rank_supported(shape) {
        Err(ErrorModel::UnsupportedRank { ndims: shape.len() as usize })
    } else if shape_product(shape) > usize::MAX {
        Err(ErrorModel::SizeOverflow)
    } else if shape_product(shape) != data.len() {
        Err(ErrorModel::LengthMismatch {
            expected: shape_product(shape) as usize,
            actual: data.len() as usize,
        })
    } else {
        Ok(from_vec_shape_model(data, shape))
    }
}

/// What `from_vec_shape_double` builds on valid arguments.
pub open spec fn from_vec_shape_double_model(data: Seq<u64>, shape: Seq<usize>) -> TensorModel {
    TensorModel { data: float64_storage(shape, data), shape }
}

/// Exact outcome of `from_vec_shape_double`.
pub open spec fn from_vec_shape_double_result(data: Seq<u64>, shape: Seq<usize>) -> Result<
    TensorModel,
    ErrorModel,
> {
    if !rank_supported(shape) {
        Err(ErrorModel::UnsupportedRank { ndims: shape.len() as usize })
    } else if shape_product(shape) > usize::MAX {
        Err(ErrorModel::SizeOverflow)
    } else if shape_product(shape) != data.len() {
        Err(ErrorModel::LengthMismatch {
            expected: shape_product(shape) as usize,
            actual: data.len() as usize,
        })
    } else {
        Ok(from_vec_shape_double_model(data, shape))
    }
}

/// Exact outcome of `from_vec_shape_i32`.
pub open spec fn from_vec_shape_i32_result(data: Seq<i32>, shape: Seq<usize>) -> Result<
    TensorModel,
    ErrorModel,
> {
    if !rank_supported(shape) {
        Err(ErrorModel::UnsupportedRank { ndims: shape.len() as usize })
    } else if shape_product(shape) > usize::MAX {
        Err(ErrorModel::SizeOverflow)
    } else if shape_product(shape) != data.len() {
        Err(ErrorModel::LengthMismatch {
            expected: shape_product(shape) as usize,
            actual: data.len() as usize,
        })
    } else {
        Ok(from_vec_shape_i32_model(data, shape))
    }
}

/// A tensor-or-error outcome, as its mathematical image.
pub open spec fn tensor_result_model(r: Result<BlasTensor, BlasError>) -> Result<
    TensorModel,
    ErrorModel,
> {
    match r {
        Ok(t) => Ok(t@),
        Err(e) => Err(e@),
    }
}

impl BlasTensor {
    /// A rank-1 tensor owning the given 32-bit float bit patterns.
    pub fn from_vec(raw_data: Vec<u32>) -> (r: BlasTensor)
        ensures
            r@ == from_vec_model(raw_data@),
            r@.wf(),
    {
        let n = raw_data.len();
        let mut shape: Vec<usize> = Vec::new();
        shape.push(n);
        let t = BlasTensor { data: TensorKind::FloatVector(raw_data), shape };
        proof {
            assert(t@.shape =~= seq![n]);
            assert(t@.shape.drop_last() =~= Seq::<usize>::empty());
            assert(shape_product(Seq::<usize>::empty()) == 1);
            assert(shape_product(t@.shape) == 1 * n);
        }
        t
    }

    /// A tensor of the given logical shape over the given 32-bit float
    /// bit patterns, stored unchanged; ranks 3 and 4 fold onto rank-2
    /// storage. Rejects rank 0 and ranks of 5 or more, and a buffer whose
    /// length disagrees with the shape's element count.
    pub fn from_vec_shape(raw_data: Vec<u32>, shape: Vec<usize>) -> (r: Result<
        BlasTensor,
        BlasError,
    >)
        ensures
            tensor_result_model(r) == from_vec_shape_result(raw_data@, shape@),
            r matches Ok(t) ==> t@.wf(),
    {
        let dims = shape.len();
        if dims < 1 || dims > 4 {
            return Err(BlasError::UnsupportedRank { ndims: dims });
        }
        let n = match checked_shape_product(&shape) {
            Some(n) => n,
            None => {
                return Err(BlasError::SizeOverflow);
            },
        };
        if n != raw_data.len() {
            return Err(BlasError::LengthMismatch { expected: n, actual: raw_data.len() });
        }
        let kind = if dims == 1 {
            TensorKind::FloatVector(raw_data)
        } else {
            TensorKind::FloatMatrix(raw_data)
        };
        Ok(BlasTensor { data: kind, shape })
    }

    /// A tensor of the given logical shape over the given 64-bit float
    /// bit patterns, stored unchanged; same gates as `from_vec_shape`.
    /// The double-precision random constructors assemble through this.
    pub fn from_vec_shape_double(raw_data: Vec<u64>, shape: Vec<usize>) -> (r: Result<
        BlasTensor,
        BlasError,
    >)
        ensures
            tensor_result_model(r) == from_vec_shape_double_result(raw_data@, shape@),
            r matches Ok(t) ==> t@.wf(),
    {
        let dims = shape.len();
        if dims < 1 || dims > 4 {
            return Err(BlasError::UnsupportedRank { ndims: dims });
        }
        let n = match checked_shape_product(&shape) {
            Some(n) => n,
            None => {
                return Err(BlasError::SizeOverflow);
            },
        };
        if n != raw_data.len() {
            return Err(BlasError::LengthMismatch { expected: n, actual: raw_data.len() });
        }
        let kind = if dims == 1 {
            TensorKind::DoubleVector(raw_data)
        } else {
            TensorKind::DoubleMatrix(raw_data)
        };
        Ok(BlasTensor { data: kind, shape })
    }

    /// A tensor of the given logical shape over the given 32-bit signed
    /// integers, stored unchanged; same gates as `from_vec_shape`.
    pub fn from_vec_shape_i32(raw_data: Vec<i32>, shape: Vec<usize>) -> (r: Result<
        BlasTensor,
        BlasError,
    >)
        ensures
            tensor_result_model(r) == from_vec_shape_i32_result(raw_data@, shape@),
            r matches Ok(t) ==> t@.wf(),
    {
        let dims = shape.len();
        if dims < 1 || dims > 4 {
            return Err(BlasError::UnsupportedRank { ndims: dims });
        }
        let n = match checked_shape_product(&shape) {
            Some(n) => n,
            None => {
                return Err(BlasError::SizeOverflow);
            },
        };
        if n != raw_data.len() {
            return Err(BlasError::LengthMismatch { expected: n, actual: raw_data.len() });
        }
        let kind = if dims == 1 {
            TensorKind::Int32Vector(raw_data)
        } else {
            TensorKind::Int32Matrix(raw_data)
        };
        Ok(BlasTensor { data: kind, shape })
    }

    /// A zero-filled 32-bit float tensor of the given logical shape: the
    /// fill is the bit pattern of positive zero.
    pub fn zeros(shape: Vec<usize>) -> (r: Result<BlasTensor, BlasError>)
        ensures
            tensor_result_model(r) == zeros_result(shape@),
            r matches Ok(t) ==> t@.wf(),
    {
        let dims = shape.len();
        if dims < 1 || dims > 4 {
            return Err(BlasError::UnsupportedRank { ndims: dims });
        }
        let n = match checked_shape_product(&shape) {
            Some(n) => n,
            None => {
                return Err(BlasError::SizeOverflow);
            },
        };
        let data = filled_u32(n, 0);
        proof {
            assert(data@ =~= Seq::new(shape_product(shape@) as nat, |i: int| 0u32));
        }
        let kind = if dims == 1 {
            TensorKind::FloatVector(data)
        } else {
            TensorKind::FloatMatrix(data)
        };
        Ok(BlasTensor { data: kind, shape })
    }

    /// A one-filled 32-bit float tensor of the given logical shape: the
    /// fill is the bit pattern of one.
    pub fn ones(shape: Vec<usize>) -> (r: Result<BlasTensor, BlasError>)
        ensures
            tensor_result_model(r) == ones_result(shape@),
            r matches Ok(t) ==> t@.wf(),
    {
        let dims = shape.len();
        if dims < 1 || dims > 4 {
            return Err(BlasError::UnsupportedRank { ndims: dims });
        }
        let n = match checked_shape_product(&shape) {
            Some(n) => n,
            None => {
                return Err(BlasError::SizeOverflow);
            },
        };
        let data = filled_u32(n, FLOAT32_ONE_BITS);
        proof {
            assert(data@ =~= Seq::new(shape_product(shape@) as nat, |i: int| FLOAT32_ONE_BITS));
        }
        let kind = if dims == 1 {
            TensorKind::FloatVector(data)
        } else {
            TensorKind::FloatMatrix(data)
        };
        Ok(BlasTensor { data: kind, shape })
    }

    /// The element count a logical shape demands, under the same gates
    /// as the shape-driven constructors: a supported rank and a
    /// machine-representable product. The random constructors decide
    /// with this how many samples to draw before touching the sampler.
    pub fn shape_element_count(shape: &Vec<usize>) -> (r: Result<usize, BlasError>)
        ensures
            match r {
                Ok(n) => shape_constructor_check(shape@) == Ok::<(), ErrorModel>(()) && n
                    == shape_product(shape@),
                Err(e) => shape_constructor_check(shape@) == Err::<(), ErrorModel>(e@),
            },
    {
        let dims = shape.len();
        if dims < 1 || dims > 4 {
            return Err(BlasError::UnsupportedRank { ndims: dims });
        }
        match checked_shape_product(shape) {
            Some(n) => Ok(n),
            None => Err(BlasError::SizeOverflow),
        }
    }

    /// A zero-filled 64-bit float tensor of the given logical shape.
    pub fn zeros_double(shape: Vec<usize>) -> (r: Result<BlasTensor, BlasError>)
        ensures
            tensor_result_model(r) == zeros_double_result(shape@),
            r matches Ok(t) ==> t@.wf(),
    {
        let dims = shape.len();
        if dims < 1 || dims > 4 {
            return Err(BlasError::UnsupportedRank { ndims: dims });
        }
        let n = match checked_shape_product(&shape) {
            Some(n) => n,
            None => {
                return Err(BlasError::SizeOverflow);
            },
        };
        let data = filled_u64(n, 0);
        proof {
            assert(data@ =~= Seq::new(shape_product(shape@) as nat, |i: int| 0u64));
        }
        let kind = if dims == 1 {
            TensorKind::DoubleVector(data)
        } else {
            TensorKind::DoubleMatrix(data)
        };
        Ok(BlasTensor { data: kind, shape })
    }
}

/// Rank folding is content-preserving: a rank-3 construction with shape
/// `[a, b, c]` and a rank-2 construction with shape `[a*b, c]` from the
/// same raw buffer both succeed and hold identical physical storage.
pub proof fn lemma_rank_fold_content(data: Seq<u32>, a: usize, b: usize, c: usize)
    requires
        a * b <= usize::MAX,
        data.len() <= usize::MAX,
        shape_product(seq![a, b, c]) == data.len(),
    ensures
        ({
            let r3 = from_vec_shape_result(data, seq![a, b, c]);
            let r2 = from_vec_shape_result(data, seq![(a * b) as usize, c]);
            r3 matches Ok(t3) && r2 matches Ok(t2) && t3.data == t2.data
        }),
{
    let s3 = seq![a, b, c];
    let s2 = seq![(a * b) as usize, c];
    assert(shape_product(Seq::<usize>::empty()) == 1);
    assert(s3.drop_last() =~= seq![a, b]);
    assert(seq![a, b].drop_last() =~= seq![a]);
    assert(seq![a].drop_last() =~= Seq::<usize>::empty());
    assert(shape_product(seq![a]) == 1 * a);
    assert(shape_product(seq![a, b]) == (1 * a) * b);
    assert(shape_product(s3) == ((1 * a) * b) * c);
    assert(s2.drop_last() =~= seq![(a * b) as usize]);
    assert(seq![(a * b) as usize].drop_last() =~= Seq::<usize>::empty());
    assert(shape_product(seq![(a * b) as usize]) == 1 * ((a * b) as usize));
    assert(shape_product(s2) == (1 * ((a * b) as usize)) * c);
    assert(((1 * a) * b) * c == (1 * ((a * b) as int)) * c) by (nonlinear_arith);
    assert(shape_product(s2) == shape_product(s3));
    lemma_product_nonneg(s3);
}

/// Exact equality of two 32-bit buffers.
fn eq_bits_u32(a: &Vec<u32>, b: &Vec<u32>) -> (r: bool)
    ensures
        r == (a@ == b@),
{
    if a.len() != b.len() {
        return false;
    }
    let mut i: usize = 0;
    while i < a.len()
        invariant
            0 <= i <= a@.len(),
            a@.len() == b@.len(),
            forall|j: int| 0 <= j < i ==> a@[j] == b@[j],
        decreases a@.len() - i,
    {
        if a[i] != b[i] {
            return false;
        }
        i = i + 1;
    }
    proof {
        assert(a@ =~= b@);
    }
    true
}

/// Exact equality of two 64-bit buffers.
fn eq_bits_u64(a: &Vec<u64>, b: &Vec<u64>) -> (r: bool)
    ensures
        r == (a@ == b@),
{
    if a.len() != b.len() {
        return false;
    }
    let mut i: usize = 0;
    while i < a.len()
        invariant
            0 <= i <= a@.len(),
            a@.len() == b@.len(),
            forall|j: int| 0 <= j < i ==> a@[j] == b@[j],
        decreases a@.len() - i,
    {
        if a[i] != b[i] {
            return false;
        }
        i = i + 1;
    }
    proof {
        assert(a@ =~= b@);
    }
    true
}

/// Exact equality of two 32-bit integer buffers.
fn eq_ints_i32(a: &Vec<i32>, b: &Vec<i32>) -> (r: bool)
    ensures
        r == (a@ == b@),
{
    if a.len() != b.len() {
        return false;
    }
    let mut i: usize = 0;
    while i < a.len()
        invariant
            0 <= i <= a@.len(),
            a@.len() == b@.len(),
            forall|j: int| 0 <= j < i ==> a@[j] == b@[j],
        decreases a@.len() - i,
    {
        if a[i] != b[i] {
            return false;
        }
        i = i + 1;
    }
    proof {
        assert(a@ =~= b@);
    }
    true
}

/// Exact equality of two 8-bit integer buffers.
fn eq_ints_i8(a: &Vec<i8>, b: &Vec<i8>) -> (r: bool)
    ensures
        r == (a@ == b@),
{
    if a.len() != b.len() {
        return false;
    }
    let mut i: usize = 0;
    while i < a.len()
        invariant
            0 <= i <= a@.len(),
            a@.len() == b@.len(),
            forall|j: int| 0 <= j < i ==> a@[j] == b@[j],
        decreases a@.len() - i,
    {
        if a[i] != b[i] {
            return false;
        }
        i = i + 1;
    }
    proof {
        assert(a@ =~= b@);
    }
    true
}

impl PartialEq for TensorKind {
    /// Same variant with the same stored bits, element by element.
    fn eq(&self, other: &Self) -> (r: bool) {
        match (self, other) {
            (TensorKind::FloatVector(a), TensorKind::FloatVector(b)) => eq_bits_u32(a, b),
            (TensorKind::FloatMatrix(a), TensorKind::FloatMatrix(b)) => eq_bits_u32(a, b),
            (TensorKind::DoubleVector(a), TensorKind::DoubleVector(b)) => eq_bits_u64(a, b),
            (TensorKind::DoubleMatrix(a), TensorKind::DoubleMatrix(b)) => eq_bits_u64(a, b),
            (TensorKind::Int32Vector(a), TensorKind::Int32Vector(b)) => eq_ints_i32(a, b),
            (TensorKind::Int32Matrix(a), TensorKind::Int32Matrix(b)) => eq_ints_i32(a, b),
            (TensorKind::Int8Vector(a), TensorKind::Int8Vector(b)) => eq_ints_i8(a, b),
            (TensorKind::Int8Matrix(a), TensorKind::Int8Matrix(b)) => eq_ints_i8(a, b),
            _ => false,
        }
    }
}

impl vstd::std_specs::cmp::PartialEqSpecImpl for TensorKind {
    open spec fn obeys_eq_spec() -> bool {
        true
    }

    open spec fn eq_spec(&self, other: &Self) -> bool {
        self@ == other@
    }
}

impl PartialEq for BlasTensor {
    /// Same storage and same logical shape.
    fn eq(&self, other: &Self) -> (r: bool) {
        self.data == other.data && crate::shape::shape_eq(&self.shape, &other.shape)
    }
}

impl vstd::std_specs::cmp::PartialEqSpecImpl for BlasTensor {
    open spec fn obeys_eq_spec() -> bool {
        true
    }

    open spec fn eq_spec(&self, other: &Self) -> bool {
        self@ == other@
    }
}

/// `n` copies of one 32-bit pattern.
pub fn filled_u32(n: usize, value: u32) -> (r: Vec<u32>)
    ensures
        r@.len() == n,
        forall|i: int| 0 <= i < n ==> r@[i] == value,
{
    let mut r: Vec<u32> = Vec::new();
    let mut i: usize = 0;
    while i < n
        invariant
            0 <= i <= n,
            r@.len() == i,
            forall|j: int| 0 <= j < i ==> r@[j] == value,
        decreases n - i,
    {
        r.push(value);
        i = i + 1;
    }
    r
}

/// `n` copies of one 64-bit pattern.
pub fn filled_u64(n: usize, value: u64) -> (r: Vec<u64>)
    ensures
        r@.len() == n,
        forall|i: int| 0 <= i < n ==> r@[i] == value,
{
    let mut r: Vec<u64> = Vec::new();
    let mut i: usize = 0;
    while i < n
        invariant
            0 <= i <= n,
            r@.len() == i,
            forall|j: int| 0 <= j < i ==> r@[j] == value,
        decreases n - i,
    {
        r.push(value);
        i = i + 1;
    }
    r
}

/// A fresh copy of a 32-bit buffer.
pub fn copy_bits_u32(v: &Vec<u32>) -> (r: Vec<u32>)
    ensures
        r@ == v@,
{
    let mut r: Vec<u32> = Vec::new();
    let mut i: usize = 0;
    while i < v.len()
        invariant
            0 <= i <= v@.len(),
            r@ =~= v@.take(i as int),
        decreases v@.len() - i,
    {
        r.push(v[i]);
        i = i + 1;
    }
    proof {
        assert(v@.take(v@.len() as int) =~= v@);
    }
    r
}

} // verus!
