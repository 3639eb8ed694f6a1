use vstd::prelude::*;

verus! {

/// The sum of a set of timing samples, each a count of nanoseconds.
pub open spec fn sum_nanos(s: Seq<u64>) -> int
    decreases s.len(),
{
    if s.len() == 0 {
        0
    } else {
        sum_nanos(s.drop_last()) + s.last()
    }
}

/// The mean of the samples, rounded down to a whole nanosecond.
pub open spec fn mean_of(s: Seq<u64>) -> int
    recommends
        s.len() > 0,
{
    sum_nanos(s) / s.len() as int
}

/// The sum of squared deviations of the samples from `m`.
pub open spec fn sq_dev_sum(s: Seq<u64>, m: int) -> int
    decreases s.len(),
{
    if s.len() == 0 {
        0
    } else {
        sq_dev_sum(s.drop_last(), m) + (s.last() - m) * (s.last() - m)
    }
}

/// The population variance: squared deviations from the mean are summed and
/// divided by the sample count, not by one less.
pub open spec fn variance_of(s: Seq<u64>) -> int
    recommends
        s.len() > 0,
{
    sq_dev_sum(s, mean_of(s)) / s.len() as int
}

/// `r` is the square root of `v`, rounded down.
pub open spec fn is_sqrt_floor(v: int, r: int) -> bool {
    r * r <= v < (r + 1) * (r + 1)
}

pub proof fn lemma_sum_bounds(s: Seq<u64>)
    ensures
        0 <= sum_nanos(s) <= s.len() * 0xFFFF_FFFF_FFFF_FFFF,
    decreases s.len(),
{
    if s.len() > 0 {
        lemma_sum_bounds(s.drop_last());
    }
}

pub proof fn lemma_mean_bounds(s: Seq<u64>)
    requires
        s.len() >= 1,
    ensures
        0 <= mean_of(s) <= 0xFFFF_FFFF_FFFF_FFFF,
{
    lemma_sum_bounds(s);
    vstd::arithmetic::div_mod::lemma_div_pos_is_pos(sum_nanos(s), s.len() as int);
    vstd::arithmetic::div_mod::lemma_div_is_ordered(
        sum_nanos(s),
        s.len() as int * 0xFFFF_FFFF_FFFF_FFFF,
        s.len() as int,
    );
    vstd::arithmetic::div_mod::lemma_div_multiples_vanish(0xFFFF_FFFF_FFFF_FFFF, s.len() as int);
}

/// Extending a prefix of the samples by the next one adds its squared
/// deviation.
pub proof fn lemma_sq_dev_take_step(s: Seq<u64>, m: int, i: int)
    requires
        0 <= i < s.len(),
    ensures
        sq_dev_sum(s.take(i + 1), m) == sq_dev_sum(s.take(i), m) + (s[i] - m) * (s[i] - m),
{
    assert(s.take(i + 1).drop_last() =~= s.take(i));
    assert(s.take(i + 1).last() == s[i]);
}

pub proof fn lemma_sum_at_least_len(s: Seq<u64>)
    requires
        forall|i: int| 0 <= i < s.len() ==> s[i] >= 1,
    ensures
        sum_nanos(s) >= s.len(),
    decreases s.len(),
{
    if s.len() > 0 {
        assert(forall|i: int| 0 <= i < s.drop_last().len() ==> s.drop_last()[i] >= 1);
        lemma_sum_at_least_len(s.drop_last());
        assert(s.last() >= 1);
    }
}

/// Samples that all took time give a positive mean: a run whose every
/// repetition lasted at least one nanosecond reports a positive mean, so a
/// timed pass over real work cannot summarize to nothing.
pub proof fn lemma_positive_samples_positive_mean(s: Seq<u64>)
    requires
        s.len() >= 1,
        forall|i: int| 0 <= i < s.len() ==> s[i] >= 1,
    ensures
        mean_of(s) >= 1,
{
    lemma_sum_at_least_len(s);
    vstd::arithmetic::div_mod::lemma_div_is_ordered(s.len() as int, sum_nanos(s), s.len() as int);
    vstd::arithmetic::div_mod::lemma_div_multiples_vanish(1, s.len() as int);
}

/// A single sample shows no spread: the mean is the sample itself and the
/// population variance is exactly zero.
pub proof fn lemma_single_sample_no_spread(s: Seq<u64>)
    requires
        s.len() == 1,
    ensures
        mean_of(s) == s[0],
        sq_dev_sum(s, mean_of(s)) == 0,
        variance_of(s) == 0,
{
    assert(s.drop_last() =~= Seq::<u64>::empty());
    assert(sum_nanos(s.drop_last()) == 0);
    assert(sq_dev_sum(s.drop_last(), mean_of(s)) == 0);
    assert(s.last() == s[0]);
    assert(sum_nanos(s) == s[0]);
    vstd::arithmetic::div_mod::lemma_fundamental_div_mod_converse(s[0] as int, 1, s[0] as int, 0);
    assert(mean_of(s) == s[0]);
    assert(sq_dev_sum(s, mean_of(s)) == 0);
    vstd::arithmetic::div_mod::lemma_fundamental_div_mod_converse(0, 1, 0, 0);
}

/// The square root of `v`, rounded down, found by bisection.
pub fn isqrt(v: u128) -> (r: u64)
    ensures
        is_sqrt_floor(v as int, r as int),
{
    let mut lo: u128 = 0;
    let mut hi: u128 = 0xFFFF_FFFF_FFFF_FFFF;
    proof {
        assert((hi as int + 1) * (hi as int + 1) > v as int) by (nonlinear_arith)
            requires
                hi == 0xFFFF_FFFF_FFFF_FFFF,
                v <= u128::MAX,
        ;
    }
    while lo < hi
        invariant
            0 <= lo <= hi <= 0xFFFF_FFFF_FFFF_FFFF,
            (lo as int) * (lo as int) <= v as int,
            (hi as int + 1) * (hi as int + 1) > v as int,
        decreases hi - lo,
    {
        proof {
            vstd::arithmetic::div_mod::lemma_fundamental_div_mod_converse(
                2 * (lo as int) + 2,
                2,
                lo as int + 1,
                0,
            );
            vstd::arithmetic::div_mod::lemma_fundamental_div_mod_converse(
                2 * (hi as int) + 1,
                2,
                hi as int,
                1,
            );
            vstd::arithmetic::div_mod::lemma_div_is_ordered(
                2 * (lo as int) + 2,
                lo as int + hi as int + 1,
                2,
            );
            vstd::arithmetic::div_mod::lemma_div_is_ordered(
                lo as int + hi as int + 1,
                2 * (hi as int) + 1,
                2,
            );
        }
        let mid: u128 = (lo + hi + 1) / 2;
        proof {
            assert(mid * mid <= 0xFFFF_FFFF_FFFF_FFFF * 0xFFFF_FFFF_FFFF_FFFFu128) by (
            nonlinear_arith)
                requires
                    0 <= mid <= 0xFFFF_FFFF_FFFF_FFFFu128,
            ;
        }
        let sq: u128 = mid * mid;
        if sq <= v {
            lo = mid;
        } else {
            hi = mid - 1;
        }
    }
    lo as u64
}

} // verus!
