use vstd::prelude::*;

verus! {

/// A dense store of fixed-point elements, kept in an `ndarray` dynamic-rank
/// array. Verus sees the store only through the names `nd_dims` and
/// `nd_data` and the wrappers below.
#[verifier::external_body]
#[derive(Debug)]
pub struct DenseStore {
    inner: ndarray::ArrayD<i64>,
}

/// The elements that a store holds, in the array's logical (row-major)
/// order.
pub uninterp spec fn nd_data(a: DenseStore) -> Seq<i64>;

/// The dimension sizes of a store, outermost axis first.
pub uninterp spec fn nd_dims(a: DenseStore) -> Seq<usize>;

/// Relies on ndarray's `ArrayD::from_shape_vec`: with the default strides it
/// builds an array of the given shape over exactly the given elements, kept
/// in logical order. It succeeds whenever the element count matches the
/// product of the dimensions and the product of the non-zero dimensions
/// stays within what `isize` can index, which its size check demands.
#[verifier::external_body]
pub(crate) fn nd_from_shape_vec(dims: &Vec<usize>, data: Vec<i64>) -> (r: DenseStore)
    requires
        crate::shape::product(dims@) == data@.len(),
        crate::shape::nonzero_product(dims@) <= isize::MAX,
    ensures
        nd_dims(r) == dims@,
        nd_data(r) == data@,
{
    DenseStore { inner: ndarray::ArrayD::from_shape_vec(ndarray::IxDyn(dims.as_slice()), data).unwrap() }
}

/// Relies on ndarray's `ArrayBase::shape`: the dimension sizes of the array,
/// outermost axis first.
#[verifier::external_body]
pub(crate) fn nd_shape(a: &DenseStore) -> (r: Vec<usize>)
    ensures
        r@ == nd_dims(*a),
{
    a.inner.shape().to_vec()
}

/// Relies on ndarray's `ArrayBase::iter`: it visits every element once, in
/// the array's logical order.
#[verifier::external_body]
pub(crate) fn nd_to_vec(a: &DenseStore) -> (r: Vec<i64>)
    ensures
        r@ == nd_data(*a),
{
    a.inner.iter().copied().collect()
}

} // verus!
