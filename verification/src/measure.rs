use vstd::prelude::*;
use crate::BenchError;
use crate::stats::{mean_of, sq_dev_sum, variance_of, is_sqrt_floor, sum_nanos, isqrt,
    lemma_mean_bounds, lemma_sq_dev_take_step, lemma_single_sample_no_spread};

verus! {

#[verifier::external_type_specification]
#[verifier::external_body]
pub struct ExInstant(std::time::Instant);

/// Relies on `std::time::Instant::now`: a reading of a monotonic clock.
/// Nothing is promised of the reading.
#[verifier::external_body]
fn instant_now() -> std::time::Instant {
    std::time::Instant::now()
}

/// Relies on `std::time::Instant::elapsed`: the time since the reading, as
/// a whole count of nanoseconds. A clock is not a function of any input, so
/// nothing is promised of the count.
#[verifier::external_body]
fn elapsed_nanos(start: &std::time::Instant) -> u128 {
    start.elapsed().as_nanos()
}

/// The reduction of one timed run: the mean and the population standard
/// deviation of the per-repetition times, each rounded down to a whole
/// nanosecond.
#[derive(Clone, Copy, Debug, PartialEq, Eq, Structural)]
pub struct MeasurementSummary {
    pub mean_nanos: u64,
    pub std_dev_nanos: u64,
}

/// What a timed run hands back: the per-repetition samples in nanoseconds,
/// their summary, and the value the operation produced on its last
/// repetition, so a caller can inspect the output without running again.
/// An operation that can itself fail should be passed as one returning
/// `Result` and unwrapped by the caller through the last value: the harness
/// times every repetition alike and never swallows or retries anything.
#[derive(Debug)]
pub struct Measurement<T> {
    pub samples: Vec<u64>,
    pub summary: MeasurementSummary,
    pub last: T,
}

/// Reduces timing samples to their summary. The mean is exact, rounded
/// down; the standard deviation is the rounded-down square root of the
/// population variance, and saturates only when the summed squared
/// deviations overflow the widest machine integer.
pub fn summarize(samples: &Vec<u64>) -> (s: MeasurementSummary)
    requires
        samples@.len() >= 1,
    ensures
        s.mean_nanos == mean_of(samples@),
        sq_dev_sum(samples@, mean_of(samples@)) <= u128::MAX ==> is_sqrt_floor(
            variance_of(samples@),
            s.std_dev_nanos as int,
        ),
        sq_dev_sum(samples@, mean_of(samples@)) > u128::MAX ==> s.std_dev_nanos == u64::MAX,
{
    let n: usize = samples.len();
    let mut total: u128 = 0;
    let mut i: usize = 0;
    proof {
        assert(samples@.take(0) =~= Seq::<u64>::empty());
    }
    while i < n
        invariant
            0 <= i <= n,
            n == samples@.len(),
            total == sum_nanos(samples@.take(i as int)),
            total <= (i as int) * 0xFFFF_FFFF_FFFF_FFFF,
        decreases n - i,
    {
        proof {
            assert(samples@.take(i as int + 1).drop_last() =~= samples@.take(i as int));
            assert((i as int + 1) * 0xFFFF_FFFF_FFFF_FFFF <= 0xFFFF_FFFF_FFFF_FFFF
                * 0xFFFF_FFFF_FFFF_FFFF) by (nonlinear_arith)
                requires
                    0 <= i as int + 1 <= 0xFFFF_FFFF_FFFF_FFFF,
            ;
        }
        total = total + samples[i] as u128;
        i += 1;
    }
    proof {
        assert(samples@.take(n as int) =~= samples@);
        lemma_mean_bounds(samples@);
    }
    let mean128: u128 = total / (n as u128);
    let mean: u64 = mean128 as u64;
    let mut acc: u128 = 0;
    let mut overflowed: bool = false;
    let mut k: usize = 0;
    proof {
        assert(samples@.take(0) =~= Seq::<u64>::empty());
    }
    while k < n
        invariant
            0 <= k <= n,
            n == samples@.len(),
            mean == mean_of(samples@),
            !overflowed ==> acc == sq_dev_sum(samples@.take(k as int), mean as int),
            overflowed ==> sq_dev_sum(samples@.take(k as int), mean as int) > u128::MAX,
        decreases n - k,
    {
        let x: u64 = samples[k];
        let d: u64 = if x >= mean {
            x - mean
        } else {
            mean - x
        };
        proof {
            assert((d as int) * (d as int) == (x as int - mean as int) * (x as int
                - mean as int)) by (nonlinear_arith)
                requires
                    d as int == x as int - mean as int || d as int == mean as int - x as int,
            ;
            assert((d as u128) * (d as u128) <= 0xFFFF_FFFF_FFFF_FFFF
                * 0xFFFF_FFFF_FFFF_FFFFu128) by (nonlinear_arith)
                requires
                    0 <= d as u128 <= 0xFFFF_FFFF_FFFF_FFFFu128,
            ;
            lemma_sq_dev_take_step(samples@, mean as int, k as int);
        }
        let sq: u128 = (d as u128) * (d as u128);
        if !overflowed {
            match acc.checked_add(sq) {
                Some(grown) => {
                    acc = grown;
                },
                None => {
                    overflowed = true;
                },
            }
        }
        k += 1;
    }
    proof {
        assert(samples@.take(n as int) =~= samples@);
    }
    if overflowed {
        MeasurementSummary { mean_nanos: mean, std_dev_nanos: u64::MAX }
    } else {
        let var: u128 = acc / (n as u128);
        let sd: u64 = isqrt(var);
        MeasurementSummary { mean_nanos: mean, std_dev_nanos: sd }
    }
}

/// Runs the operation the given number of times, timing each run on the
/// monotonic clock, and reduces the samples to their summary.
///
/// Zero repetitions is invalid input and the one error; any positive count
/// succeeds. The harness is agnostic to what the operation does: the
/// operation's own postcondition is all that is carried to the returned
/// last value, so timing a call changes nothing of its meaning. A single
/// repetition reports a standard deviation of exactly zero.
pub fn measure<T, F: Fn() -> T>(operation: F, repetitions: usize) -> (r: Result<
    Measurement<T>,
    BenchError,
>)
    requires
        call_requires(operation, ()),
    ensures
        repetitions == 0 ==> r == Err::<Measurement<T>, BenchError>(
            BenchError::InvalidRepetitionCount,
        ),
        repetitions >= 1 ==> r is Ok,
        r matches Ok(m) ==> {
            &&& m.samples@.len() == repetitions
            &&& m.summary.mean_nanos == mean_of(m.samples@)
            &&& (sq_dev_sum(m.samples@, mean_of(m.samples@)) <= u128::MAX ==> is_sqrt_floor(
                variance_of(m.samples@),
                m.summary.std_dev_nanos as int,
            ))
            &&& (sq_dev_sum(m.samples@, mean_of(m.samples@)) > u128::MAX
                ==> m.summary.std_dev_nanos == u64::MAX)
            &&& call_ensures(operation, (), m.last)
            &&& (repetitions == 1 ==> m.summary.std_dev_nanos == 0)
        },
{
    if repetitions == 0 {
        return Err(BenchError::InvalidRepetitionCount);
    }
    let mut samples: Vec<u64> = Vec::new();
    let mut produced: Option<T> = None;
    let mut i: usize = 0;
    while i < repetitions
        invariant
            0 <= i <= repetitions,
            samples@.len() == i,
            call_requires(operation, ()),
            i >= 1 ==> produced is Some,
            produced matches Some(v) ==> call_ensures(operation, (), v),
        decreases repetitions - i,
    {
        let start = instant_now();
        let v = operation();
        let e: u128 = elapsed_nanos(&start);
        let sample: u64 = if e > 0xFFFF_FFFF_FFFF_FFFFu128 {
            u64::MAX
        } else {
            e as u64
        };
        samples.push(sample);
        produced = Some(v);
        i += 1;
    }
    let summary = summarize(&samples);
    proof {
        if repetitions == 1 {
            lemma_single_sample_no_spread(samples@);
            assert(summary.std_dev_nanos as int * (summary.std_dev_nanos as int) <= 0 ==> summary.std_dev_nanos == 0) by (nonlinear_arith);
        }
    }
    let out: T = match produced {
        Some(v) => v,
        None => vstd::pervasive::unreached(),
    };
    Ok(Measurement { samples, summary, last: out })
}

} // verus!
