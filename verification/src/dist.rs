use vstd::prelude::*;
use crate::rng::{Rng, next_state, state_after};
use crate::SCALE;

verus! {

/// The probability laws an array can be filled from. Dispatch is by value of
/// this tag; a new law is added by extending the enumeration and its
/// sampling rule.
#[derive(Clone, Copy, Debug, PartialEq, Eq, Structural)]
pub enum DistributionKind {
    Normal,
    Poisson,
    Uniform,
}

/// How many parameters a distribution takes: mean and standard deviation for
/// Normal, the rate for Poisson, the two bounds for Uniform.
pub open spec fn arity(kind: DistributionKind) -> nat {
    match kind {
        DistributionKind::Normal => 2,
        DistributionKind::Poisson => 1,
        DistributionKind::Uniform => 2,
    }
}

/// Whether parameter values of the right count lie in the distribution's
/// domain: a Poisson rate must be positive, a Uniform lower bound must not
/// exceed the upper; a Normal pair is never rejected.
pub open spec fn params_ok(kind: DistributionKind, params: Seq<i64>) -> bool {
    match kind {
        DistributionKind::Normal => true,
        DistributionKind::Poisson => params[0] >= 1,
        DistributionKind::Uniform => params[0] <= params[1],
    }
}

/// What a single draw is promised to satisfy: a Uniform draw lies between
/// the bounds, a Poisson draw is a non-negative whole count, a Normal draw
/// lies within six standard deviations of the mean (the generator sums
/// twelve uniform draws, so wider excursions cannot occur).
pub open spec fn sample_ok(kind: DistributionKind, params: Seq<i64>, v: i64) -> bool {
    match kind {
        DistributionKind::Normal => params[0] - 6 * vstd::math::abs(params[1] as int) <= v as int
            <= params[0] + 6 * vstd::math::abs(params[1] as int),
        DistributionKind::Poisson => v >= 0 && (v as int) % (SCALE as int) == 0,
        DistributionKind::Uniform => params[0] <= v <= params[1],
    }
}

pub fn arity_of(kind: DistributionKind) -> (r: usize)
    ensures
        r == arity(kind),
{
    match kind {
        DistributionKind::Normal => 2,
        DistributionKind::Poisson => 1,
        DistributionKind::Uniform => 2,
    }
}

pub fn params_valid(kind: DistributionKind, params: &Vec<i64>) -> (r: bool)
    requires
        params@.len() == arity(kind),
    ensures
        r == params_ok(kind, params@),
{
    match kind {
        DistributionKind::Normal => true,
        DistributionKind::Poisson => params[0] >= 1,
        DistributionKind::Uniform => params[0] <= params[1],
    }
}

/// The value of a uniform draw as a function of the generator state alone.
pub open spec fn uniform_of(state: u64, low: int, high: int) -> int {
    low + (next_state(state) as int) % (high - low + 1)
}

/// One draw from the uniform law on `[low, high]`, taken from the next raw
/// draw by reduction modulo the width of the interval.
pub fn uniform_draw(rng: &mut Rng, low: i64, high: i64) -> (r: i64)
    requires
        low <= high,
    ensures
        low <= r <= high,
        r as int == uniform_of(old(rng).state, low as int, high as int),
        final(rng).state == next_state(old(rng).state),
{
    let x: u64 = rng.next_u64();
    let span: i128 = high as i128 - low as i128 + 1;
    let off: i128 = (x as i128) % span;
    proof {
        vstd::arithmetic::div_mod::lemma_mod_bound(x as int, span as int);
    }
    let v: i128 = low as i128 + off;
    v as i64
}

/// The sum of `n` successive uniform draws on `[0, SCALE]`, as a function
/// of the generator state alone.
pub open spec fn gauss_sum(state: u64, n: nat) -> int
    decreases n,
{
    if n == 0 {
        0
    } else {
        gauss_sum(state, (n - 1) as nat) + uniform_of(
            state_after(state, (n - 1) as nat),
            0,
            SCALE as int,
        )
    }
}

/// `v` pressed into the representable range.
pub open spec fn clamp_i64(v: int) -> i64 {
    if v > i64::MAX {
        i64::MAX
    } else if v < i64::MIN {
        i64::MIN
    } else {
        v as i64
    }
}

/// The value of a normal draw as a function of the generator state alone:
/// the recentered twelve-draw sum, scaled by the standard deviation and
/// shifted by the mean.
pub open spec fn normal_of(state: u64, mean: i64, sd: i64) -> i64 {
    let z = gauss_sum(state, 12) - 6 * (SCALE as int);
    let zn = if z < 0 {
        -z
    } else {
        z
    };
    let sdm = if sd < 0 {
        -(sd as int)
    } else {
        sd as int
    };
    let mag = (zn * sdm) / (SCALE as int);
    let delta = if (z < 0) != (sd < 0) {
        -mag
    } else {
        mag
    };
    clamp_i64(mean + delta)
}

/// One draw from the normal law with the given mean and standard deviation:
/// the sum of twelve uniform draws on `[0, 1]` has mean six and variance
/// one, so recentering and scaling gives an approximately normal value. The
/// result saturates at the ends of the representable range, is a function
/// of the incoming generator state, and steps the generator exactly twelve
/// times.
pub fn normal_draw(rng: &mut Rng, mean: i64, sd: i64) -> (r: i64)
    ensures
        mean - 6 * vstd::math::abs(sd as int) <= r as int <= mean + 6 * vstd::math::abs(
            sd as int,
        ),
        r == normal_of(old(rng).state, mean, sd),
        final(rng).state == state_after(old(rng).state, 12),
{
    let ghost s0: u64 = rng.state;
    let mut acc: i64 = 0;
    let mut k: usize = 0;
    while k < 12
        invariant
            0 <= k <= 12,
            0 <= acc as int <= k as int * 1_000_000,
            rng.state == state_after(s0, k as nat),
            acc as int == gauss_sum(s0, k as nat),
        decreases 12 - k,
    {
        let d = uniform_draw(rng, 0, SCALE);
        acc = acc + d;
        k += 1;
    }
    let z: i64 = acc - 6 * SCALE;
    let zn: i128 = if z < 0 {
        -(z as i128)
    } else {
        z as i128
    };
    let sdm: i128 = if sd < 0 {
        -(sd as i128)
    } else {
        sd as i128
    };
    proof {
        assert(0 <= zn * sdm <= 6_000_000 * sdm) by (nonlinear_arith)
            requires
                0 <= zn <= 6_000_000,
                0 <= sdm,
        ;
    }
    let prod: i128 = zn * sdm;
    let mag: i128 = prod / 1_000_000i128;
    proof {
        vstd::arithmetic::div_mod::lemma_div_is_ordered(prod as int, 6_000_000 * sdm, 1_000_000);
        vstd::arithmetic::div_mod::lemma_div_multiples_vanish(6 * sdm as int, 1_000_000);
        vstd::arithmetic::div_mod::lemma_div_pos_is_pos(prod as int, 1_000_000);
        assert(0 <= mag <= 6 * sdm);
    }
    let delta: i128 = if (z < 0) != (sd < 0) {
        -mag
    } else {
        mag
    };
    let target: i128 = mean as i128 + delta;
    proof {
        assert(vstd::math::abs(sd as int) == sdm);
    }
    let r: i64 = if target > i64::MAX as i128 {
        i64::MAX
    } else if target < i64::MIN as i128 {
        i64::MIN
    } else {
        target as i64
    };
    proof {
        assert(z as int == gauss_sum(s0, 12) - 6 * (SCALE as int));
        assert(r == clamp_i64(mean + delta as int));
        assert(r == normal_of(s0, mean, sd));
    }
    r
}

/// The largest event count whose fixed-point form still fits: beyond it a
/// Poisson draw saturates.
pub const MAX_EVENTS: i64 = 9_000_000_000_000;

/// The part of the rate drawn in one pass: at most a thousand whole units.
pub open spec fn chunk_of(remaining: int) -> int {
    if remaining > 1_000_000_000 {
        1_000_000_000
    } else {
        remaining
    }
}

/// How many Bernoulli trials a chunk is drawn over: 128 per whole unit of
/// rate, so each trial's success probability stays below one in 128.
pub open spec fn trials_for(chunk: int) -> int {
    128 * (chunk / (SCALE as int) + 1)
}

/// The width of the range each trial draws from.
pub open spec fn bound_for(chunk: int) -> int {
    trials_for(chunk) * (SCALE as int)
}

/// The event count after `n` trials of one chunk, starting from `count0`
/// events, as a function of the generator state alone. A trial succeeds when
/// its draw falls below the chunk's rate; the count is capped so that its
/// fixed-point form always fits.
pub open spec fn chunk_count(state: u64, chunk: int, n: nat, count0: int) -> int
    decreases n,
{
    if n == 0 {
        count0
    } else {
        let prev = chunk_count(state, chunk, (n - 1) as nat, count0);
        let hit = uniform_of(state_after(state, (n - 1) as nat), 0, bound_for(chunk) - 1) < chunk;
        if hit && prev < MAX_EVENTS {
            prev + 1
        } else {
            prev
        }
    }
}

/// The event count and final generator state of a whole Poisson draw, as a
/// function of the incoming state alone: the rate is walked chunk by chunk,
/// and each chunk's trials consume successive draws.
pub open spec fn poisson_walk(state: u64, remaining: int, count0: int) -> (int, u64)
    decreases remaining,
{
    if remaining <= 0 {
        (count0, state)
    } else {
        let c = chunk_of(remaining);
        let n = trials_for(c) as nat;
        poisson_walk(state_after(state, n), remaining - c, chunk_count(state, c, n, count0))
    }
}

/// One draw from the Poisson law with the given positive rate. The rate is
/// split into chunks, and each chunk is drawn as the number of successes in
/// a run of Bernoulli trials whose expected count equals the chunk's rate;
/// the counts add, as Poisson variables do. The result is a whole count in
/// fixed-point form and a function of the incoming generator state.
pub fn poisson_draw(rng: &mut Rng, rate: i64) -> (r: i64)
    requires
        rate >= 1,
    ensures
        r >= 0,
        (r as int) % (SCALE as int) == 0,
        r as int == poisson_walk(old(rng).state, rate as int, 0).0 * (SCALE as int),
        final(rng).state == poisson_walk(old(rng).state, rate as int, 0).1,
{
    let ghost s0: u64 = rng.state;
    let mut count: i64 = 0;
    let mut remaining: i64 = rate;
    while remaining > 0
        invariant
            0 <= count <= MAX_EVENTS,
            remaining >= 0,
            poisson_walk(s0, rate as int, 0) == poisson_walk(
                rng.state,
                remaining as int,
                count as int,
            ),
        decreases remaining,
    {
        let ghost scs: u64 = rng.state;
        let ghost rem_old: int = remaining as int;
        let ghost c0: int = count as int;
        let chunk: i64 = if remaining > 1_000_000_000 {
            1_000_000_000
        } else {
            remaining
        };
        remaining = remaining - chunk;
        let per_unit: i64 = chunk / SCALE;
        proof {
            vstd::arithmetic::div_mod::lemma_div_is_ordered(chunk as int, 1_000_000_000, 1_000_000);
            vstd::arithmetic::div_mod::lemma_div_pos_is_pos(chunk as int, 1_000_000);
            vstd::arithmetic::div_mod::lemma_fundamental_div_mod(chunk as int, 1_000_000);
            vstd::arithmetic::div_mod::lemma_mod_bound(chunk as int, 1_000_000);
        }
        let trials: i64 = 128 * (per_unit + 1);
        let bound: i64 = trials * SCALE;
        assert(chunk <= bound);
        proof {
            assert(chunk as int == chunk_of(rem_old));
            assert(trials as int == trials_for(chunk as int));
            assert(bound as int == bound_for(chunk as int));
        }
        let mut t: i64 = 0;
        while t < trials
            invariant
                0 <= t <= trials,
                0 <= count <= MAX_EVENTS,
                bound >= chunk >= 1,
                trials as int == trials_for(chunk as int),
                bound as int == bound_for(chunk as int),
                rng.state == state_after(scs, t as nat),
                count as int == chunk_count(scs, chunk as int, t as nat, c0),
            decreases trials - t,
        {
            let u = uniform_draw(rng, 0, bound - 1);
            if u < chunk {
                if count < MAX_EVENTS {
                    count = count + 1;
                }
            }
            t = t + 1;
        }
        proof {
            assert(poisson_walk(scs, rem_old, c0) == poisson_walk(
                rng.state,
                remaining as int,
                count as int,
            ));
        }
    }
    let r: i64 = count * SCALE;
    proof {
        vstd::arithmetic::div_mod::lemma_mod_multiples_basic(count as int, SCALE as int);
    }
    r
}

/// The value of one draw from the selected distribution, as a function of
/// the generator state alone.
pub open spec fn sample_of(kind: DistributionKind, params: Seq<i64>, state: u64) -> int {
    match kind {
        DistributionKind::Normal => normal_of(state, params[0], params[1]) as int,
        DistributionKind::Poisson => poisson_walk(state, params[0] as int, 0).0 * (SCALE as int),
        DistributionKind::Uniform => uniform_of(state, params[0] as int, params[1] as int),
    }
}

/// The generator state after one draw from the selected distribution.
pub open spec fn state_of_draw(kind: DistributionKind, params: Seq<i64>, state: u64) -> u64 {
    match kind {
        DistributionKind::Normal => state_after(state, 12),
        DistributionKind::Poisson => poisson_walk(state, params[0] as int, 0).1,
        DistributionKind::Uniform => next_state(state),
    }
}

/// One draw from the selected distribution, dispatched by the tag.
pub fn draw_sample(rng: &mut Rng, kind: DistributionKind, params: &Vec<i64>) -> (r: i64)
    requires
        params@.len() == arity(kind),
        params_ok(kind, params@),
    ensures
        sample_ok(kind, params@, r),
        r as int == sample_of(kind, params@, old(rng).state),
        final(rng).state == state_of_draw(kind, params@, old(rng).state),
{
    match kind {
        DistributionKind::Normal => normal_draw(rng, params[0], params[1]),
        DistributionKind::Poisson => poisson_draw(rng, params[0]),
        DistributionKind::Uniform => uniform_draw(rng, params[0], params[1]),
    }
}

} // verus!
