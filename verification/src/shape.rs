use vstd::prelude::*;

verus! {

/// The number of elements that a shape describes: the product of its
/// dimension sizes, 1 for the empty (rank-0) shape.
pub open spec fn product(dims: Seq<usize>) -> int
    decreases dims.len(),
{
    if dims.len() == 0 {
        1
    } else {
        product(dims.drop_last()) * dims.last()
    }
}

/// A shape with a zero-length dimension describes zero elements.
pub proof fn lemma_product_zero(dims: Seq<usize>, i: int)
    requires
        0 <= i < dims.len(),
        dims[i] == 0,
    ensures
        product(dims) == 0,
    decreases dims.len(),
{
    if i == dims.len() - 1 {
        assert(dims.last() == 0);
    } else {
        lemma_product_zero(dims.drop_last(), i);
    }
}

/// The product of the non-zero dimension sizes alone. The dense container
/// can hold a shape exactly when this fits in `isize`, whatever the
/// zero-length dimensions beside them.
pub open spec fn nonzero_product(dims: Seq<usize>) -> int
    decreases dims.len(),
{
    if dims.len() == 0 {
        1
    } else {
        nonzero_product(dims.drop_last()) * (if dims.last() == 0 {
            1
        } else {
            dims.last() as int
        })
    }
}

pub proof fn lemma_nonzero_product_pos(dims: Seq<usize>)
    ensures
        nonzero_product(dims) >= 1,
    decreases dims.len(),
{
    if dims.len() > 0 {
        lemma_nonzero_product_pos(dims.drop_last());
        let f: int = if dims.last() == 0 {
            1
        } else {
            dims.last() as int
        };
        assert(nonzero_product(dims.drop_last()) * f >= 1) by (nonlinear_arith)
            requires
                nonzero_product(dims.drop_last()) >= 1,
                f >= 1,
        ;
    }
}

/// Extending a prefix of the shape by its next dimension multiplies the
/// non-zero product by that dimension, or by one where it is zero.
pub proof fn lemma_nonzero_product_take_step(dims: Seq<usize>, i: int)
    requires
        0 <= i < dims.len(),
    ensures
        nonzero_product(dims.take(i + 1)) == nonzero_product(dims.take(i)) * (if dims[i] == 0 {
            1
        } else {
            dims[i] as int
        }),
{
    assert(dims.take(i + 1).drop_last() =~= dims.take(i));
    assert(dims.take(i + 1).last() == dims[i]);
}

/// A prefix of the shape never has a larger non-zero product than the whole
/// shape.
pub proof fn lemma_nonzero_product_take_le(dims: Seq<usize>, i: int)
    requires
        0 <= i <= dims.len(),
    ensures
        nonzero_product(dims.take(i)) <= nonzero_product(dims),
    decreases dims.len() - i,
{
    if i == dims.len() {
        assert(dims.take(i) =~= dims);
    } else {
        lemma_nonzero_product_take_step(dims, i);
        lemma_nonzero_product_pos(dims.take(i));
        let f: int = if dims[i] == 0 {
            1
        } else {
            dims[i] as int
        };
        assert(nonzero_product(dims.take(i)) * f >= nonzero_product(dims.take(i))) by (
        nonlinear_arith)
            requires
                nonzero_product(dims.take(i)) >= 1,
                f >= 1,
        ;
        lemma_nonzero_product_take_le(dims, i + 1);
    }
}

/// When no dimension is zero the two products agree.
pub proof fn lemma_no_zero_product(dims: Seq<usize>)
    requires
        forall|j: int| 0 <= j < dims.len() ==> dims[j] != 0,
    ensures
        product(dims) == nonzero_product(dims),
    decreases dims.len(),
{
    if dims.len() > 0 {
        lemma_no_zero_product(dims.drop_last());
    }
}

/// The element count of a shape, or `None` when the product of its non-zero
/// dimensions exceeds what the dense container can index.
pub fn element_count(dims: &Vec<usize>) -> (r: Option<usize>)
    ensures
        match r {
            Some(n) => n == product(dims@) && nonzero_product(dims@) <= isize::MAX,
            None => nonzero_product(dims@) > isize::MAX,
        },
{
    let cap: usize = isize::MAX as usize;
    let mut acc: usize = 1;
    let mut any_zero: bool = false;
    let mut k: usize = 0;
    proof {
        assert(dims@.take(0) =~= Seq::<usize>::empty());
    }
    while k < dims.len()
        invariant
            0 <= k <= dims@.len(),
            cap == isize::MAX,
            acc == nonzero_product(dims@.take(k as int)),
            acc <= cap,
            any_zero == (exists|j: int| 0 <= j < k && dims@[j] == 0),
        decreases dims@.len() - k,
    {
        proof {
            lemma_nonzero_product_take_step(dims@, k as int);
        }
        let d: usize = dims[k];
        if d == 0 {
            any_zero = true;
            proof {
                assert(dims@[k as int] == 0);
            }
        } else {
            match acc.checked_mul(d) {
                Some(next) => {
                    if next > cap {
                        proof {
                            lemma_nonzero_product_take_le(dims@, k as int + 1);
                        }
                        return None;
                    }
                    acc = next;
                },
                None => {
                    proof {
                        lemma_nonzero_product_take_le(dims@, k as int + 1);
                    }
                    return None;
                },
            }
        }
        k += 1;
    }
    proof {
        assert(dims@.take(dims@.len() as int) =~= dims@);
    }
    if any_zero {
        proof {
            let j = choose|j: int| 0 <= j < dims@.len() && dims@[j] == 0;
            lemma_product_zero(dims@, j);
        }
        Some(0)
    } else {
        proof {
            assert(forall|j: int| 0 <= j < dims@.len() ==> dims@[j] != 0);
            lemma_no_zero_product(dims@);
        }
        Some(acc)
    }
}

} // verus!
