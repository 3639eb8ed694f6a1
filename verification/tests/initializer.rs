use rust_ndarray_test::array::initialize;
use rust_ndarray_test::dist::DistributionKind;
use rust_ndarray_test::rng::Rng;
use rust_ndarray_test::BenchError;
use rust_ndarray_test::SCALE;

fn as_real(v: i64) -> f64 {
    v as f64 / SCALE as f64
}

#[test]
fn test_create_normal_distributed_ndarray() {
    let mut rng = Rng::from_seed(11);
    let arr = initialize(&mut rng, DistributionKind::Normal, &vec![4, 4], &vec![0, SCALE])
        .unwrap();
    assert_eq!(arr.shape(), &vec![4, 4]);
    assert_eq!(arr.element_count(), 16);
    for v in arr.values() {
        assert!(-6 * SCALE <= v && v <= 6 * SCALE);
    }
}

#[test]
fn test_create_poisson_distributed_ndarray() {
    let mut rng = Rng::from_seed(12);
    let arr = initialize(&mut rng, DistributionKind::Poisson, &vec![3, 5], &vec![10 * SCALE])
        .unwrap();
    assert_eq!(arr.shape(), &vec![3, 5]);
    assert_eq!(arr.element_count(), 15);
    for v in arr.values() {
        assert!(v >= 0);
        assert_eq!(v % SCALE, 0);
    }
}

#[test]
fn test_create_uniform_distributed_ndarray() {
    let mut rng = Rng::from_seed(13);
    let arr = initialize(&mut rng, DistributionKind::Uniform, &vec![2, 8], &vec![0, SCALE])
        .unwrap();
    assert_eq!(arr.shape(), &vec![2, 8]);
    assert_eq!(arr.element_count(), 16);
    for v in arr.values() {
        assert!(0 <= v && v <= SCALE);
    }
}

#[test]
fn shape_fidelity_various_ranks() {
    let mut rng = Rng::from_seed(1);
    for shape in [vec![], vec![7], vec![2, 3, 4], vec![1, 1, 1, 5]] {
        let arr = initialize(&mut rng, DistributionKind::Normal, &shape, &vec![0, SCALE])
            .unwrap();
        assert_eq!(arr.shape(), &shape);
        assert_eq!(arr.stored_shape(), shape);
        let expected: usize = shape.iter().product();
        assert_eq!(arr.element_count(), expected);
        assert_eq!(arr.values().len(), expected);
    }
}

#[test]
fn zero_length_dimension_yields_empty_array() {
    let mut rng = Rng::from_seed(2);
    let arr = initialize(&mut rng, DistributionKind::Uniform, &vec![3, 0, 5], &vec![0, SCALE])
        .unwrap();
    assert_eq!(arr.shape(), &vec![3, 0, 5]);
    assert_eq!(arr.element_count(), 0);
    assert!(arr.values().is_empty());
    assert_eq!(arr.sum(), 0);
}

#[test]
fn oversized_shape_fails_allocation() {
    let mut rng = Rng::from_seed(3);
    let r = initialize(&mut rng, DistributionKind::Normal, &vec![usize::MAX, 2], &vec![0, SCALE]);
    assert_eq!(r.unwrap_err(), BenchError::AllocationFailure);
}

#[test]
fn zero_dimension_cannot_hide_an_oversized_one() {
    let mut rng = Rng::from_seed(3);
    let r = initialize(&mut rng, DistributionKind::Normal, &vec![0, usize::MAX], &vec![0, SCALE]);
    assert_eq!(r.unwrap_err(), BenchError::AllocationFailure);
}

#[test]
fn poisson_zero_rate_is_rejected() {
    let mut rng = Rng::from_seed(4);
    let r = initialize(&mut rng, DistributionKind::Poisson, &vec![4], &vec![0]);
    assert_eq!(r.unwrap_err(), BenchError::InvalidParameterValue);
}

#[test]
fn poisson_negative_rate_is_rejected() {
    let mut rng = Rng::from_seed(4);
    let r = initialize(&mut rng, DistributionKind::Poisson, &vec![4], &vec![-3 * SCALE]);
    assert_eq!(r.unwrap_err(), BenchError::InvalidParameterValue);
}

#[test]
fn uniform_crossed_bounds_are_rejected() {
    let mut rng = Rng::from_seed(5);
    let r = initialize(&mut rng, DistributionKind::Uniform, &vec![4], &vec![SCALE, 0]);
    assert_eq!(r.unwrap_err(), BenchError::InvalidParameterValue);
}

#[test]
fn wrong_arity_is_rejected() {
    let mut rng = Rng::from_seed(6);
    let r = initialize(&mut rng, DistributionKind::Normal, &vec![4], &vec![0]);
    assert_eq!(r.unwrap_err(), BenchError::InvalidParameterCount);
    let r = initialize(&mut rng, DistributionKind::Poisson, &vec![4], &vec![SCALE, SCALE]);
    assert_eq!(r.unwrap_err(), BenchError::InvalidParameterCount);
    let r = initialize(&mut rng, DistributionKind::Uniform, &vec![4], &vec![0, SCALE, SCALE]);
    assert_eq!(r.unwrap_err(), BenchError::InvalidParameterCount);
}

#[test]
fn arity_is_checked_before_values() {
    let mut rng = Rng::from_seed(6);
    let r = initialize(&mut rng, DistributionKind::Poisson, &vec![4], &vec![0, 0]);
    assert_eq!(r.unwrap_err(), BenchError::InvalidParameterCount);
}

#[test]
fn same_seed_reproduces_samples() {
    let mut a = Rng::from_seed(99);
    let mut b = Rng::from_seed(99);
    let left = initialize(&mut a, DistributionKind::Normal, &vec![32], &vec![2 * SCALE, SCALE])
        .unwrap();
    let right = initialize(&mut b, DistributionKind::Normal, &vec![32], &vec![2 * SCALE, SCALE])
        .unwrap();
    assert_eq!(left.values(), right.values());
}

#[test]
fn same_seed_reproduces_poisson_counts() {
    let mut a = Rng::from_seed(123);
    let mut b = Rng::from_seed(123);
    let left = initialize(&mut a, DistributionKind::Poisson, &vec![64], &vec![3 * SCALE])
        .unwrap();
    let right = initialize(&mut b, DistributionKind::Poisson, &vec![64], &vec![3 * SCALE])
        .unwrap();
    assert_eq!(left.values(), right.values());
}

#[test]
fn normal_empirical_moments_are_sane() {
    let mut rng = Rng::from_seed(2024);
    let n: usize = 10_000;
    let arr = initialize(&mut rng, DistributionKind::Normal, &vec![n], &vec![0, SCALE]).unwrap();
    let values = arr.values();
    assert_eq!(values.len(), n);
    let mean: f64 = values.iter().map(|&v| as_real(v)).sum::<f64>() / n as f64;
    let var: f64 = values.iter().map(|&v| (as_real(v) - mean) * (as_real(v) - mean)).sum::<f64>()
        / n as f64;
    assert!(mean.abs() < 0.05, "empirical mean {} too far from 0", mean);
    assert!((var - 1.0).abs() < 0.1, "empirical variance {} too far from 1", var);
}

#[test]
fn uniform_samples_lie_in_bounds_and_center() {
    let mut rng = Rng::from_seed(2025);
    let n: usize = 10_000;
    let arr = initialize(&mut rng, DistributionKind::Uniform, &vec![n], &vec![0, SCALE]).unwrap();
    let values = arr.values();
    for &v in &values {
        assert!(0 <= v && v <= SCALE);
    }
    let mean: f64 = values.iter().map(|&v| as_real(v)).sum::<f64>() / n as f64;
    assert!((mean - 0.5).abs() < 0.02, "empirical mean {} too far from 0.5", mean);
}

#[test]
fn poisson_samples_are_counts_with_mean_near_rate() {
    let mut rng = Rng::from_seed(2026);
    let n: usize = 10_000;
    let arr = initialize(&mut rng, DistributionKind::Poisson, &vec![n], &vec![10 * SCALE])
        .unwrap();
    let values = arr.values();
    for &v in &values {
        assert!(v >= 0);
        assert_eq!(v % SCALE, 0);
    }
    let mean: f64 = values.iter().map(|&v| as_real(v)).sum::<f64>() / n as f64;
    assert!((mean - 10.0).abs() < 0.3, "empirical mean {} too far from 10", mean);
}

#[test]
fn constant_uniform_interval_pins_every_sample() {
    let mut rng = Rng::from_seed(7);
    let arr = initialize(&mut rng, DistributionKind::Uniform, &vec![2, 3], &vec![
        5 * SCALE,
        5 * SCALE,
    ])
    .unwrap();
    for v in arr.values() {
        assert_eq!(v, 5 * SCALE);
    }
    assert_eq!(arr.sum(), 6 * 5 * SCALE as i128);
}
