use ndarray::linalg::general_mat_mul;
use ndarray::{Array1, Array2};

use rublas::blas_executor::{ElementwiseKind, KernelJob};
use rublas::blas_opcode::BlasOpCode;
use rublas::blas_tensor::BlasTensor;
use rublas::BlasExecutor;

fn bits(v: Vec<f32>) -> Vec<u32> {
    v.into_iter().map(f32::to_bits).collect()
}

fn floats(v: &[u32]) -> Vec<f32> {
    v.iter().map(|x| f32::from_bits(*x)).collect()
}

fn t32(v: Vec<f32>, shape: Vec<usize>) -> BlasTensor {
    BlasTensor::from_vec_shape(bits(v), shape).unwrap()
}

/// Runs the numeric backend on a validated job, exactly as a host
/// runtime would: ndarray does the float arithmetic, the executor's
/// contracts guarantee the dimensions line up.
fn run_kernel(job: KernelJob) -> (Vec<usize>, Vec<u32>) {
    match job {
        KernelJob::Elementwise(j) => {
            let a = Array1::from(floats(&j.lhs));
            let b = Array1::from(floats(&j.rhs));
            let out = match j.kind {
                ElementwiseKind::Add => a + b,
                ElementwiseKind::Sub => a - b,
                ElementwiseKind::Mul => a * b,
                ElementwiseKind::Div => a / b,
            };
            (j.shape, out.into_iter().map(|v| v.to_bits()).collect())
        }
        KernelJob::Gemm(j) => {
            let a = Array2::from_shape_vec((j.rows, j.inner), floats(&j.lhs)).unwrap();
            let b = Array2::from_shape_vec((j.inner, j.cols), floats(&j.rhs)).unwrap();
            let mut c = Array2::from_shape_vec((j.rows, j.cols), floats(&j.acc)).unwrap();
            general_mat_mul(1.0, &a, &b, 1.0, &mut c);
            (
                j.shape,
                c.into_raw_vec().into_iter().map(|v| v.to_bits()).collect(),
            )
        }
    }
}

fn binary_owned(op: BlasOpCode, lhs: BlasTensor, rhs: BlasTensor) -> BlasTensor {
    let exec = BlasExecutor::new();
    let job = exec.prepare_owned(op, lhs, rhs).unwrap();
    let (shape, data) = run_kernel(job);
    BlasTensor::from_vec_shape(data, shape).unwrap()
}

fn binary_side_effect(op: BlasOpCode, lhs: &BlasTensor, rhs: &BlasTensor, out: &mut BlasTensor) {
    let exec = BlasExecutor::new();
    let job = exec.prepare_side_effect(op, lhs, rhs, out).unwrap();
    let (shape, data) = run_kernel(job);
    exec.commit(out, shape, data).unwrap();
}

#[test]
fn test_gemm_owned() {
    let a = BlasTensor::ones(vec![17, 23]).unwrap();
    let b = BlasTensor::ones(vec![23, 18]).unwrap();
    let cref = t32([23.0f32; 17 * 18].to_vec(), vec![17, 18]);

    let c = binary_owned(BlasOpCode::GemmF, a, b);
    assert_eq!(c.ndims(), 2);
    assert_eq!(c.shape(), [17, 18]);
    assert_eq!(c, cref);
}

#[test]
fn test_gemm_side_effect() {
    let a = t32(vec![1.1, 2.2, 3.3, 4.4, 5.5, 6.6], vec![2, 3]);
    let b = BlasTensor::ones(vec![3, 2]).unwrap();
    let mut c = BlasTensor::zeros(vec![2, 2]).unwrap();
    let cref = t32(vec![6.6000004, 6.6000004, 16.5, 16.5], vec![2, 2]);

    binary_side_effect(BlasOpCode::GemmF, &a, &b, &mut c);
    assert_eq!(c.ndims(), 2);
    assert_eq!(c.shape(), [2, 2]);
    assert_eq!(c, cref);
}

#[test]
fn test_addf32_owned() {
    let a = t32(vec![1.1, 2.2, 3.3, 4.4, 5.5, 6.6], vec![2, 3]);
    let b = t32(vec![1.1, 2.2, 3.3, 4.4, 5.5, 6.6], vec![2, 3]);
    let cref = t32(vec![2.2, 4.4, 6.6, 8.8, 11., 13.2], vec![2, 3]);

    let c = binary_owned(BlasOpCode::AddF, a, b);
    assert_eq!(c.ndims(), 2);
    assert_eq!(c.shape(), [2, 3]);
    assert_eq!(c, cref);
}

#[test]
fn test_subf32_owned() {
    let a = t32(vec![2.2, 4.4, 6.6, 8.8, 11., 13.2], vec![2, 3]);
    let b = t32(vec![1.1, 2.2, 3.3, 4.4, 5.5, 6.6], vec![2, 3]);
    let cref = t32(vec![1.1, 2.2, 3.3, 4.4, 5.5, 6.6], vec![2, 3]);

    let c = binary_owned(BlasOpCode::SubF, a, b);
    assert_eq!(c.ndims(), 2);
    assert_eq!(c.shape(), [2, 3]);
    assert_eq!(c, cref);
}

#[test]
fn test_mulf32_owned() {
    let a = t32(vec![1.0, 2.0, 3.0, 4.0, 5.0, 6.0], vec![2, 3]);
    let b = t32(vec![1.0, 2.0, 3.0, 4.0, 5.0, 6.0], vec![2, 3]);
    let cref = t32(vec![1.0, 4.0, 9.0, 16.0, 25.0, 36.0], vec![2, 3]);

    let c = binary_owned(BlasOpCode::MulF, a, b);
    assert_eq!(c.ndims(), 2);
    assert_eq!(c.shape(), [2, 3]);
    assert_eq!(c, cref);
}

#[test]
fn test_divf32_owned() {
    let a = t32(vec![1.1, 2.2, 3.3, 4.4, 5.5, 6.6], vec![2, 3]);
    let b = t32(vec![1.1, 2.2, 3.3, 4.4, 5.5, 6.6], vec![2, 3]);
    let cref = t32(vec![1.0, 1.0, 1.0, 1.0, 1.0, 1.0], vec![2, 3]);

    let c = binary_owned(BlasOpCode::DivF, a, b);
    assert_eq!(c.ndims(), 2);
    assert_eq!(c.shape(), [2, 3]);
    assert_eq!(c, cref);
}

#[test]
fn test_addf32_side_effect() {
    let a = t32(vec![1.1, 2.2, 3.3, 4.4, 5.5, 6.6], vec![2, 3]);
    let b = t32(vec![1.1, 2.2, 3.3, 4.4, 5.5, 6.6], vec![2, 3]);
    let mut c = BlasTensor::zeros(vec![2, 3]).unwrap();
    let cref = t32(vec![2.2, 4.4, 6.6, 8.8, 11., 13.2], vec![2, 3]);

    binary_side_effect(BlasOpCode::AddF, &a, &b, &mut c);
    assert_eq!(c.ndims(), 2);
    assert_eq!(c.shape(), [2, 3]);
    assert_eq!(c, cref);
}

#[test]
fn test_subf32_side_effect() {
    let a = t32(vec![2.2, 4.4, 6.6, 8.8, 11., 13.2], vec![2, 3]);
    let b = t32(vec![1.1, 2.2, 3.3, 4.4, 5.5, 6.6], vec![2, 3]);
    let mut c = BlasTensor::zeros(vec![2, 3]).unwrap();
    let cref = t32(vec![1.1, 2.2, 3.3, 4.4, 5.5, 6.6], vec![2, 3]);

    binary_side_effect(BlasOpCode::SubF, &a, &b, &mut c);
    assert_eq!(c.ndims(), 2);
    assert_eq!(c.shape(), [2, 3]);
    assert_eq!(c, cref);
}

#[test]
fn test_mulf32_side_effect() {
    let a = t32(vec![1.0, 2.0, 3.0, 4.0, 5.0, 6.0], vec![2, 3]);
    let b = t32(vec![1.0, 2.0, 3.0, 4.0, 5.0, 6.0], vec![2, 3]);
    let mut c = BlasTensor::zeros(vec![2, 3]).unwrap();
    let cref = t32(vec![1.0, 4.0, 9.0, 16.0, 25.0, 36.0], vec![2, 3]);

    binary_side_effect(BlasOpCode::MulF, &a, &b, &mut c);
    assert_eq!(c.ndims(), 2);
    assert_eq!(c.shape(), [2, 3]);
    assert_eq!(c, cref);
}

#[test]
fn test_divf32_side_effect() {
    let a = t32(vec![1.1, 2.2, 3.3, 4.4, 5.5, 6.6], vec![2, 3]);
    let b = t32(vec![1.1, 2.2, 3.3, 4.4, 5.5, 6.6], vec![2, 3]);
    let mut c = BlasTensor::zeros(vec![2, 3]).unwrap();
    let cref = t32(vec![1.0, 1.0, 1.0, 1.0, 1.0, 1.0], vec![2, 3]);

    binary_side_effect(BlasOpCode::DivF, &a, &b, &mut c);
    assert_eq!(c.ndims(), 2);
    assert_eq!(c.shape(), [2, 3]);
    assert_eq!(c, cref);
}

#[test]
fn test_binary_compute_addf_owned() {
    let a = t32(vec![1.1, 2.2, 3.3, 4.4, 5.5, 6.6], vec![2, 3]);
    let b = t32(vec![1.1, 2.2, 3.3, 4.4, 5.5, 6.6], vec![2, 3]);
    let cref = t32(vec![2.2, 4.4, 6.6, 8.8, 11., 13.2], vec![2, 3]);
    let op = BlasOpCode::AddF;

    let c = binary_owned(op, a, b);
    assert_eq!(c.ndims(), 2);
    assert_eq!(c.shape(), [2, 3]);
    assert_eq!(c, cref);
}

#[test]
fn test_binary_compute_subf_owned() {
    let a = t32(vec![1.1, 2.2, 3.3, 4.4, 5.5, 6.6], vec![2, 3]);
    let b = t32(vec![1.1, 2.2, 3.3, 4.4, 5.5, 6.6], vec![2, 3]);
    let cref = t32(vec![0.0; 6], vec![2, 3]);
    let op = BlasOpCode::SubF;

    let c = binary_owned(op, a, b);
    assert_eq!(c.ndims(), 2);
    assert_eq!(c.shape(), [2, 3]);
    assert_eq!(c, cref);
}

#[test]
fn test_binary_compute_divf_owned() {
    let a = t32(vec![1.1, 2.2, 3.3, 4.4, 5.5, 6.6], vec![2, 3]);
    let b = t32(vec![1.1, 2.2, 3.3, 4.4, 5.5, 6.6], vec![2, 3]);
    let cref = t32(vec![1.0; 6], vec![2, 3]);
    let op = BlasOpCode::DivF;

    let c = binary_owned(op, a, b);
    assert_eq!(c.ndims(), 2);
    assert_eq!(c.shape(), [2, 3]);
    assert_eq!(c, cref);
}

#[test]
fn test_binary_compute_gemm_owned() {
    let a = BlasTensor::ones(vec![17, 23]).unwrap();
    let b = BlasTensor::ones(vec![23, 18]).unwrap();
    let cref = t32([23.0f32; 17 * 18].to_vec(), vec![17, 18]);
    let op = BlasOpCode::GemmF;

    let c = binary_owned(op, a, b);
    assert_eq!(c.ndims(), 2);
    assert_eq!(c.shape(), [17, 18]);
    assert_eq!(c, cref);
}
