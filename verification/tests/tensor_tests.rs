use ndarray::{Array, Array1, Array2};
use ndarray_rand::rand_distr::{Normal, Uniform};
use ndarray_rand::RandomExt;

use rublas::blas_error::BlasError;
use rublas::blas_tensor::{BlasTensor, TensorKind};
use rublas::float_bits::{deviation_valid32, deviation_valid64, uniform_range_valid32, uniform_range_valid64};

fn b32(v: Vec<f32>) -> Vec<u32> {
    v.into_iter().map(f32::to_bits).collect()
}

fn vec_bits32(a: Array1<f32>) -> Vec<u32> {
    a.into_iter().map(|v| v.to_bits()).collect()
}

fn mat_bits32(a: Array2<f32>) -> Vec<u32> {
    a.into_raw_vec().into_iter().map(|v| v.to_bits()).collect()
}

fn vec_bits64(a: Array1<f64>) -> Vec<u64> {
    a.into_iter().map(|v| v.to_bits()).collect()
}

fn mat_bits64(a: Array2<f64>) -> Vec<u64> {
    a.into_raw_vec().into_iter().map(|v| v.to_bits()).collect()
}

/// The uniform random constructor, as a host runtime assembles it: the
/// verified layer decides the sample count and the range's usability,
/// the external sampler draws, and the verified layer folds the buffer
/// into a tensor.
fn uniform_tensor(shape: Vec<usize>, min: f32, max: f32) -> Result<BlasTensor, BlasError> {
    let n = BlasTensor::shape_element_count(&shape)?;
    if !uniform_range_valid32(min.to_bits(), max.to_bits()) || !(max - min).is_finite() {
        return Err(BlasError::InvalidRange);
    }
    let data = Array1::<f32>::random(n, Uniform::new(min, max));
    BlasTensor::from_vec_shape(vec_bits32(data), shape)
}

fn uniform_double_tensor(shape: Vec<usize>, min: f64, max: f64) -> Result<BlasTensor, BlasError> {
    let n = BlasTensor::shape_element_count(&shape)?;
    if !uniform_range_valid64(min.to_bits(), max.to_bits()) || !(max - min).is_finite() {
        return Err(BlasError::InvalidRange);
    }
    let data = Array1::<f64>::random(n, Uniform::new(min, max));
    BlasTensor::from_vec_shape_double(vec_bits64(data), shape)
}

fn normal_tensor(shape: Vec<usize>, mean: f32, std: f32) -> Result<BlasTensor, BlasError> {
    let n = BlasTensor::shape_element_count(&shape)?;
    if !deviation_valid32(std.to_bits()) {
        return Err(BlasError::InvalidDeviation);
    }
    let data = Array1::<f32>::random(n, Normal::new(mean, std).unwrap());
    BlasTensor::from_vec_shape(vec_bits32(data), shape)
}

fn normal_double_tensor(shape: Vec<usize>, mean: f64, std: f64) -> Result<BlasTensor, BlasError> {
    let n = BlasTensor::shape_element_count(&shape)?;
    if !deviation_valid64(std.to_bits()) {
        return Err(BlasError::InvalidDeviation);
    }
    let data = Array1::<f64>::random(n, Normal::new(mean, std).unwrap());
    BlasTensor::from_vec_shape_double(vec_bits64(data), shape)
}

#[test]
fn test_zeros_1d() {
    let blast = BlasTensor::zeros(vec![64]).unwrap();
    let reft = TensorKind::FloatVector(vec_bits32(Array::<f32, _>::zeros(64)));
    assert_eq!(blast.data, reft);
}

#[test]
fn test_zeros_1d_double() {
    let blast = BlasTensor::zeros_double(vec![64]).unwrap();
    let reft = TensorKind::DoubleVector(vec_bits64(Array::<f64, _>::zeros(64)));
    assert_eq!(blast.data, reft);
}

#[test]
fn test_zeros_2d() {
    let blast = BlasTensor::zeros(vec![64, 32]).unwrap();
    let reft = TensorKind::FloatMatrix(mat_bits32(Array::<f32, _>::zeros((64, 32))));
    assert_eq!(blast.data, reft);
}

#[test]
fn test_ones_2d() {
    let blast = BlasTensor::ones(vec![64, 32]).unwrap();
    let reft = TensorKind::FloatMatrix(mat_bits32(Array::<f32, _>::ones((64, 32))));
    assert_eq!(blast.data, reft);
}

#[test]
fn test_zeros_3d() {
    let blast = BlasTensor::zeros(vec![8, 64, 32]).unwrap();
    let reft = TensorKind::FloatMatrix(mat_bits32(Array::<f32, _>::zeros((512, 32))));
    assert_eq!(blast.data, reft);
}

#[test]
fn test_zeros_4d() {
    let blast = BlasTensor::zeros(vec![8, 2, 64, 32]).unwrap();
    let reft = TensorKind::FloatMatrix(mat_bits32(Array::<f32, _>::zeros((1024, 32))));
    assert_eq!(blast.data, reft);
}

#[test]
fn test_ones_4d() {
    let blast = BlasTensor::ones(vec![8, 2, 64, 32]).unwrap();
    let reft = TensorKind::FloatMatrix(mat_bits32(Array::<f32, _>::ones((1024, 32))));
    assert_eq!(blast.data, reft);
}

#[test]
fn test_uniform_1d() {
    let blast = uniform_tensor(vec![64], -1.0, 1.0).unwrap();
    let reft = TensorKind::FloatVector(vec_bits32(Array::random(64, Uniform::new(-1f32, 1.))));
    // samples are not reproducible across runs, so contents stay unasserted
    assert!(blast.well_formed());
    assert_eq!(blast.shape(), [64]);
    let _ = reft;
}

#[test]
fn test_uniform_double_1d() {
    let blast = uniform_tensor(vec![64], -1f32, 1.0).unwrap();
    let reft = TensorKind::DoubleVector(vec_bits64(Array::random(64, Uniform::new(-1f64, 1.))));
    assert!(blast.well_formed());
    assert_eq!(blast.shape(), [64]);
    let _ = reft;
}

#[test]
fn test_uniform_2d() {
    let blast = uniform_tensor(vec![64, 32], -1f32, 1.0).unwrap();
    let reft = TensorKind::FloatMatrix(mat_bits32(Array::random([64, 32], Uniform::new(-1f32, 1.))));
    assert!(blast.well_formed());
    assert_eq!(blast.shape(), [64, 32]);
    let _ = reft;
}

#[test]
fn test_normal_2d() {
    let blast = normal_tensor(vec![64, 32], 0.0f32, 1.0).unwrap();
    let reft =
        TensorKind::FloatMatrix(mat_bits32(Array::random([64, 32], Normal::new(0.0f32, 1.).unwrap())));
    assert!(blast.well_formed());
    assert_eq!(blast.shape(), [64, 32]);
    let _ = reft;
}

#[test]
fn test_normal_double_2d() {
    let blast = uniform_double_tensor(vec![64, 32], -1f64, 1.0).unwrap();
    let reft =
        TensorKind::DoubleMatrix(mat_bits64(Array::random([64, 32], Normal::new(-1f64, 1.).unwrap())));
    assert!(blast.well_formed());
    assert_eq!(blast.shape(), [64, 32]);
    let _ = reft;
}

#[test]
fn test_uniform_double_2d() {
    let blast = uniform_double_tensor(vec![64, 32], -1f64, 1.0).unwrap();
    let reft = TensorKind::DoubleMatrix(mat_bits64(Array::random([64, 32], Uniform::new(-1f64, 1.))));
    assert!(blast.well_formed());
    assert_eq!(blast.shape(), [64, 32]);
    let _ = reft;
}

#[test]
fn test_uniform_3d() {
    let blast = uniform_tensor(vec![8, 64, 32], -1f32, 1.0).unwrap();
    let reft = TensorKind::FloatMatrix(mat_bits32(Array::random([512, 32], Uniform::new(-1f32, 1.))));
    assert!(blast.well_formed());
    assert_eq!(blast.shape(), [8, 64, 32]);
    let _ = reft;
}

#[test]
fn test_uniform_4d() {
    let blast = uniform_tensor(vec![8, 2, 64, 32], -1f32, 1.0).unwrap();
    let reft = TensorKind::FloatMatrix(mat_bits32(Array::random([1024, 32], Uniform::new(-1f32, 1.))));
    assert!(blast.well_formed());
    assert_eq!(blast.shape(), [8, 2, 64, 32]);
    let _ = reft;
}

#[test]
fn unusable_sampler_parameters_classified() {
    assert_eq!(
        uniform_tensor(vec![4], 1.0, -1.0).unwrap_err(),
        BlasError::InvalidRange
    );
    assert_eq!(
        uniform_tensor(vec![4], f32::NAN, 1.0).unwrap_err(),
        BlasError::InvalidRange
    );
    assert_eq!(
        uniform_double_tensor(vec![4], f64::MIN, f64::MAX).unwrap_err(),
        BlasError::InvalidRange
    );
    assert_eq!(
        normal_tensor(vec![4], 0.0, f32::INFINITY).unwrap_err(),
        BlasError::InvalidDeviation
    );
    assert_eq!(
        normal_double_tensor(vec![4], 0.0, f64::NAN).unwrap_err(),
        BlasError::InvalidDeviation
    );
    assert_eq!(
        uniform_tensor(vec![], -1.0, 1.0).unwrap_err(),
        BlasError::UnsupportedRank { ndims: 0 }
    );
}

#[test]
fn test_build_from_1d() {
    let blast = BlasTensor::from_vec(b32(vec![1.7, 2.3, 3.3, 4.1]));
    let reft = TensorKind::FloatVector(vec_bits32(Array::from(vec![1.7, 2.3, 3.3, 4.1])));
    assert_eq!(blast.shape(), vec![4]);
    assert_eq!(blast.data, reft);
}

#[test]
fn test_build_from_2d() {
    let blast =
        BlasTensor::from_vec_shape(b32(vec![1.7, 2.3, 3.3, 4.1, 1.7, 2.3, 3.3, 4.1]), vec![2, 4])
            .unwrap();
    let reft = TensorKind::FloatMatrix(mat_bits32(
        Array::from_shape_vec([2, 4], vec![1.7, 2.3, 3.3, 4.1, 1.7, 2.3, 3.3, 4.1]).unwrap(),
    ));
    assert_eq!(blast.shape(), vec![2, 4]);
    assert_eq!(blast.data, reft);
}

#[test]
fn test_build_from_2d_i32() {
    let blast =
        BlasTensor::from_vec_shape_i32(vec![1i32, 2, 3, 4, 7, 2, 3, 4], vec![2, 4]).unwrap();
    let reft = TensorKind::Int32Matrix(
        Array::from_shape_vec([2, 4], vec![1i32, 2, 3, 4, 7, 2, 3, 4])
            .unwrap()
            .into_raw_vec(),
    );
    assert_eq!(blast.shape(), vec![2, 4]);
    assert_eq!(blast.data, reft);
}
