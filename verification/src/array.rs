use vstd::prelude::*;
use crate::BenchError;
use crate::dist::{DistributionKind, arity, arity_of, params_ok, params_valid, sample_ok,
    sample_of, state_of_draw, draw_sample};
use crate::nd::{DenseStore, nd_data, nd_dims, nd_from_shape_vec, nd_shape, nd_to_vec};
use crate::rng::Rng;
use crate::shape::{product, nonzero_product, element_count};

verus! {

/// The sum of a sequence of fixed-point values, as an unbounded integer.
pub open spec fn seq_sum(s: Seq<i64>) -> int
    decreases s.len(),
{
    if s.len() == 0 {
        0
    } else {
        seq_sum(s.drop_last()) + s.last()
    }
}

/// A dense array of fixed-point values with an immutable shape. The
/// elements live in an `ndarray` container; the shape and the element count
/// are carried beside it and tied to it by `wf`.
#[derive(Debug)]
pub struct NumericArray {
    dims: Vec<usize>,
    count: usize,
    store: DenseStore,
}

impl NumericArray {
    /// The dimension sizes, outermost first.
    pub closed spec fn dims_spec(&self) -> Seq<usize> {
        self.dims@
    }

    /// The elements, in the container's logical order.
    pub closed spec fn data_spec(&self) -> Seq<i64> {
        nd_data(self.store)
    }

    pub closed spec fn wf(&self) -> bool {
        &&& nd_dims(self.store) == self.dims@
        &&& self.count == product(self.dims@)
        &&& nd_data(self.store).len() == product(self.dims@)
    }

    pub fn shape(&self) -> (r: &Vec<usize>)
        ensures
            r@ == self.dims_spec(),
    {
        &self.dims
    }

    pub fn element_count(&self) -> (r: usize)
        requires
            self.wf(),
        ensures
            r == product(self.dims_spec()),
            r == self.data_spec().len(),
    {
        self.count
    }

    /// The elements copied out into a flat vector, in logical order.
    pub fn values(&self) -> (r: Vec<i64>)
        ensures
            r@ == self.data_spec(),
    {
        nd_to_vec(&self.store)
    }

    /// The shape as the container reports it; `wf` ties it to `shape`.
    pub fn stored_shape(&self) -> (r: Vec<usize>)
        requires
            self.wf(),
        ensures
            r@ == self.dims_spec(),
    {
        nd_shape(&self.store)
    }

    /// The exact sum of all elements, in fixed-point units.
    pub fn sum(&self) -> (r: i128)
        ensures
            r == seq_sum(self.data_spec()),
    {
        let data = self.values();
        let mut acc: i128 = 0;
        let mut i: usize = 0;
        proof {
            assert(data@.take(0) =~= Seq::<i64>::empty());
        }
        while i < data.len()
            invariant
                0 <= i <= data@.len(),
                data@ == self.data_spec(),
                acc == seq_sum(data@.take(i as int)),
                -(i as int) * 0x8000_0000_0000_0000 <= acc <= (i as int) * 0x8000_0000_0000_0000,
            decreases data@.len() - i,
        {
            proof {
                assert(data@.take(i as int + 1).drop_last() =~= data@.take(i as int));
            }
            acc = acc + data[i] as i128;
            i += 1;
        }
        proof {
            assert(data@.take(data@.len() as int) =~= data@);
        }
        acc
    }
}

/// The generator state after `n` draws from the selected distribution.
pub open spec fn rng_after_draws(
    kind: DistributionKind,
    params: Seq<i64>,
    state: u64,
    n: nat,
) -> u64
    decreases n,
{
    if n == 0 {
        state
    } else {
        state_of_draw(kind, params, rng_after_draws(kind, params, state, (n - 1) as nat))
    }
}

/// The `n` elements that successive draws from the selected distribution
/// produce, as a function of the incoming generator state alone: seeding
/// the generator identically reproduces the fill.
pub open spec fn fill_of(kind: DistributionKind, params: Seq<i64>, state: u64, n: nat) -> Seq<i64>
    decreases n,
{
    if n == 0 {
        Seq::empty()
    } else {
        fill_of(kind, params, state, (n - 1) as nat).push(
            sample_of(kind, params, rng_after_draws(kind, params, state, (n - 1) as nat)) as i64,
        )
    }
}

/// Allocates an array of the requested shape and fills every element with an
/// independent draw from the selected distribution.
///
/// The parameter list must have the arity the distribution asks for, and the
/// values must lie in its domain, or the call fails fast; a shape whose
/// non-zero dimensions alone describe more elements than the container can
/// index fails rather than allocating. A shape with a zero-length dimension
/// yields an empty array and no error.
pub fn initialize(rng: &mut Rng, distribution: DistributionKind, shape: &Vec<usize>, params: &Vec<
    i64,
>) -> (r: Result<NumericArray, BenchError>)
    ensures
        params@.len() != arity(distribution) ==> r == Err::<NumericArray, BenchError>(
            BenchError::InvalidParameterCount,
        ),
        params@.len() == arity(distribution) && !params_ok(distribution, params@) ==> r == Err::<
            NumericArray,
            BenchError,
        >(BenchError::InvalidParameterValue),
        params@.len() == arity(distribution) && params_ok(distribution, params@)
            && nonzero_product(shape@) > isize::MAX ==> r == Err::<NumericArray, BenchError>(
            BenchError::AllocationFailure,
        ),
        params@.len() == arity(distribution) && params_ok(distribution, params@)
            && nonzero_product(shape@) <= isize::MAX ==> r is Ok,
        r matches Ok(a) ==> {
            &&& a.wf()
            &&& a.dims_spec() == shape@
            &&& a.data_spec().len() == product(shape@)
            &&& forall|i: int|
                0 <= i < a.data_spec().len() ==> sample_ok(distribution, params@, a.data_spec()[i])
            &&& a.data_spec() == fill_of(
                distribution,
                params@,
                old(rng).state,
                product(shape@) as nat,
            )
            &&& final(rng).state == rng_after_draws(
                distribution,
                params@,
                old(rng).state,
                product(shape@) as nat,
            )
        },
        r is Err ==> final(rng).state == old(rng).state,
{
    if params.len() != arity_of(distribution) {
        return Err(BenchError::InvalidParameterCount);
    }
    if !params_valid(distribution, params) {
        return Err(BenchError::InvalidParameterValue);
    }
    let n: usize = match element_count(shape) {
        Some(n) => n,
        None => {
            return Err(BenchError::AllocationFailure);
        },
    };
    let ghost s0: u64 = rng.state;
    let mut data: Vec<i64> = Vec::new();
    let mut i: usize = 0;
    while i < n
        invariant
            0 <= i <= n,
            data@.len() == i,
            n == product(shape@),
            params@.len() == arity(distribution),
            params_ok(distribution, params@),
            forall|j: int| 0 <= j < i ==> sample_ok(distribution, params@, data@[j]),
            rng.state == rng_after_draws(distribution, params@, s0, i as nat),
            data@ == fill_of(distribution, params@, s0, i as nat),
        decreases n - i,
    {
        let v = draw_sample(rng, distribution, params);
        data.push(v);
        i += 1;
    }
    let store = nd_from_shape_vec(shape, data);
    Ok(NumericArray { dims: shape.clone(), count: n, store })
}

} // verus!
