use rust_ndarray_test::array::initialize;
use rust_ndarray_test::dist::DistributionKind;
use rust_ndarray_test::measure::{measure, summarize};
use rust_ndarray_test::rng::Rng;
use rust_ndarray_test::stats::isqrt;
use rust_ndarray_test::BenchError;
use rust_ndarray_test::SCALE;

#[test]
fn zero_repetitions_fail() {
    let r = measure(|| 1u32, 0);
    assert_eq!(r.unwrap_err(), BenchError::InvalidRepetitionCount);
}

#[test]
fn single_repetition_has_zero_deviation() {
    let m = measure(|| 41u32 + 1, 1).unwrap();
    assert_eq!(m.samples.len(), 1);
    assert_eq!(m.summary.std_dev_nanos, 0);
    assert_eq!(m.last, 42);
}

#[test]
fn repetition_count_is_respected_and_last_value_kept() {
    let m = measure(|| vec![1u8, 2, 3], 7).unwrap();
    assert_eq!(m.samples.len(), 7);
    assert_eq!(m.last, vec![1u8, 2, 3]);
}

#[test]
fn summarize_computes_population_statistics() {
    let samples: Vec<u64> = vec![2, 4, 4, 4, 5, 5, 7, 9];
    let s = summarize(&samples);
    assert_eq!(s.mean_nanos, 5);
    assert_eq!(s.std_dev_nanos, 2);
}

#[test]
fn summarize_rounds_the_mean_down() {
    let samples: Vec<u64> = vec![1, 2, 3, 4];
    let s = summarize(&samples);
    assert_eq!(s.mean_nanos, 2);
    assert_eq!(s.std_dev_nanos, 1);
}

#[test]
fn summarize_saturates_on_extreme_spread() {
    let samples: Vec<u64> = vec![0, 0, 0, u64::MAX, u64::MAX, u64::MAX];
    let s = summarize(&samples);
    assert_eq!(s.mean_nanos, u64::MAX / 2);
    assert_eq!(s.std_dev_nanos, u64::MAX);
}

#[test]
fn isqrt_rounds_down() {
    assert_eq!(isqrt(0), 0);
    assert_eq!(isqrt(1), 1);
    assert_eq!(isqrt(15), 3);
    assert_eq!(isqrt(16), 4);
    assert_eq!(isqrt(17), 4);
    assert_eq!(isqrt(u128::MAX), u64::MAX);
}

#[test]
fn measuring_initialization_keeps_its_shape() {
    let m = measure(
        || {
            let mut rng = Rng::from_seed(8);
            initialize(&mut rng, DistributionKind::Normal, &vec![4, 4], &vec![0, SCALE]).unwrap()
        },
        5,
    )
    .unwrap();
    assert_eq!(m.samples.len(), 5);
    assert!(m.summary.std_dev_nanos >= 0);
    assert_eq!(m.last.shape(), &vec![4, 4]);
    assert_eq!(m.last.element_count(), 16);
}

#[test]
fn end_to_end_uniform_fill_then_timed_sum() {
    let mut rng = Rng::from_seed(9);
    let arr = initialize(&mut rng, DistributionKind::Uniform, &vec![1024, 1024], &vec![0, SCALE])
        .unwrap();
    assert_eq!(arr.element_count(), 1024 * 1024);
    let m = measure(|| arr.sum(), 10).unwrap();
    assert_eq!(m.samples.len(), 10);
    for &s in &m.samples {
        let millis = s as f64 / 1_000_000.0;
        assert!(millis >= 0.0);
    }
    let mean_millis = m.summary.mean_nanos as f64 / 1_000_000.0;
    assert!(mean_millis > 0.0, "summing a million elements took no time");
    let total = m.last;
    assert!(total >= 0);
    assert!(total <= 1024 * 1024 * SCALE as i128);
}
