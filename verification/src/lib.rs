pub mod array;
pub mod dist;
pub mod measure;
mod nd;
pub mod rng;
pub mod shape;
pub mod stats;

use vstd::prelude::*;

verus! {

/// The fixed-point scale: one unit of a stored value stands for one
/// millionth of the quantity it models.
pub const SCALE: i64 = 1_000_000;

/// Why a request was rejected: the distribution was handed the wrong number
/// of parameters, a parameter value outside the distribution's domain, a
/// shape whose element count cannot be allocated, or a repetition count of
/// zero.
#[derive(Clone, Copy, Debug, PartialEq, Eq, Structural)]
pub enum BenchError {
    InvalidParameterCount,
    InvalidParameterValue,
    InvalidRepetitionCount,
    AllocationFailure,
}

} // verus!
