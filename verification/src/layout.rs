//! Row-major layout of a dense array: shapes, multi-indices and the flat
//! position of a cell.

use vstd::prelude::*;

verus! {

/// The number of cells of a shape: the product of its axis lengths.
pub open spec fn product(dims: Seq<usize>) -> int
    decreases dims.len(),
{
    if dims.len() == 0 {
        1
    } else {
        product(dims.drop_last()) * dims.last()
    }
}

/// The product of the axis lengths that are not zero.
pub open spec fn nonzero_product(dims: Seq<usize>) -> int
    decreases dims.len(),
{
    if dims.len() == 0 {
        1
    } else if dims.last() == 0 {
        nonzero_product(dims.drop_last())
    } else {
        nonzero_product(dims.drop_last()) * dims.last()
    }
}

/// Whether a flat payload of `len` cells can take the shape: the lengths
/// multiply to `len`, and those that are not zero multiply to no more than
/// `isize::MAX`.
pub open spec fn fits(dims: Seq<usize>, len: int) -> bool {
    nonzero_product(dims) <= isize::MAX && product(dims) == len
}

/// Whether a multi-index names a cell of the shape.
pub open spec fn in_bounds(dims: Seq<usize>, idx: Seq<usize>) -> bool {
    idx.len() == dims.len() && forall|k: int| 0 <= k < dims.len() ==> idx[k] < dims[k]
}

/// The flat position of a cell in row-major order: the last axis varies
/// fastest.
pub open spec fn offset(dims: Seq<usize>, idx: Seq<usize>) -> int
    decreases dims.len(),
{
    if dims.len() == 0 {
        0
    } else {
        offset(dims.drop_last(), idx.drop_last()) * dims.last() + idx.last()
    }
}

/// Whether `axes` lists each of `0 .. axes.len()` once.
pub open spec fn is_permutation(axes: Seq<usize>) -> bool {
    &&& forall|j: int| 0 <= j < axes.len() ==> axes[j] < axes.len()
    &&& forall|i: int, j: int| 0 <= i < j < axes.len() ==> axes[i] != axes[j]
}

/// A shape or multi-index with its axes reordered: place `j` takes what stood
/// at place `axes[j]`.
pub open spec fn permuted(s: Seq<usize>, axes: Seq<usize>) -> Seq<usize> {
    Seq::new(axes.len(), |j: int| s[axes[j] as int])
}

/// The flat position of a cell lies within the payload.
pub proof fn lemma_offset_in_range(dims: Seq<usize>, idx: Seq<usize>)
    requires
        in_bounds(dims, idx),
    ensures
        0 <= offset(dims, idx) < product(dims),
    decreases dims.len(),
{
    if dims.len() > 0 {
        let d = dims.drop_last();
        let i = idx.drop_last();
        assert(in_bounds(d, i)) by {
            assert forall|k: int| 0 <= k < d.len() implies i[k] < d[k] by {
                assert(idx[k] < dims[k]);
            }
        }
        lemma_offset_in_range(d, i);
        let o = offset(d, i);
        let p = product(d);
        let n = dims.last() as int;
        let j = idx.last() as int;
        assert(idx[dims.len() - 1] < dims[dims.len() - 1]);
        assert(0 <= o * n + j < p * n) by (nonlinear_arith)
            requires
                0 <= o < p,
                0 <= j < n,
        ;
    }
}

/// The flat position in a shape of six axes, written out.
pub proof fn lemma_offset_6(dims: Seq<usize>, idx: Seq<usize>)
    requires
        dims.len() == 6,
        idx.len() == 6,
    ensures
        offset(dims, idx) == ((((idx[0] * dims[1] + idx[1]) * dims[2] + idx[2]) * dims[3]
            + idx[3]) * dims[4] + idx[4]) * dims[5] + idx[5],
{
    lemma_offset_prefix(dims, idx, 1);
    lemma_offset_prefix(dims, idx, 2);
    lemma_offset_prefix(dims, idx, 3);
    lemma_offset_prefix(dims, idx, 4);
    lemma_offset_prefix(dims, idx, 5);
    lemma_offset_prefix(dims, idx, 6);
    assert(dims.take(6) == dims);
    assert(idx.take(6) == idx);
    assert(offset(dims.take(0), idx.take(0)) == 0);
}

/// The flat position in a shape of eight axes, written out.
pub proof fn lemma_offset_8(dims: Seq<usize>, idx: Seq<usize>)
    requires
        dims.len() == 8,
        idx.len() == 8,
    ensures
        offset(dims, idx) == ((((((idx[0] * dims[1] + idx[1]) * dims[2] + idx[2]) * dims[3]
            + idx[3]) * dims[4] + idx[4]) * dims[5] + idx[5]) * dims[6] + idx[6]) * dims[7]
            + idx[7],
{
    lemma_offset_prefix(dims, idx, 1);
    lemma_offset_prefix(dims, idx, 2);
    lemma_offset_prefix(dims, idx, 3);
    lemma_offset_prefix(dims, idx, 4);
    lemma_offset_prefix(dims, idx, 5);
    lemma_offset_prefix(dims, idx, 6);
    lemma_offset_prefix(dims, idx, 7);
    lemma_offset_prefix(dims, idx, 8);
    assert(dims.take(8) == dims);
    assert(idx.take(8) == idx);
    assert(offset(dims.take(0), idx.take(0)) == 0);
}

/// The number of cells of a shape of six axes, written out.
pub proof fn lemma_product_6(dims: Seq<usize>)
    requires
        dims.len() == 6,
    ensures
        product(dims) == dims[0] * dims[1] * dims[2] * dims[3] * dims[4] * dims[5],
{
    lemma_product_prefix(dims, 1);
    lemma_product_prefix(dims, 2);
    lemma_product_prefix(dims, 3);
    lemma_product_prefix(dims, 4);
    lemma_product_prefix(dims, 5);
    lemma_product_prefix(dims, 6);
    assert(dims.take(6) == dims);
    assert(product(dims.take(0)) == 1);
}

/// A length, or one in place of zero.
pub open spec fn or_one(d: usize) -> int {
    if d == 0 {
        1
    } else {
        d as int
    }
}

/// The product of the lengths that are not zero, in a shape of six axes,
/// written out.
pub proof fn lemma_nonzero_product_6(dims: Seq<usize>)
    requires
        dims.len() == 6,
    ensures
        nonzero_product(dims) == or_one(dims[0]) * or_one(dims[1]) * or_one(dims[2]) * or_one(
            dims[3],
        ) * or_one(dims[4]) * or_one(dims[5]),
{
    lemma_product_prefix(dims, 1);
    lemma_product_prefix(dims, 2);
    lemma_product_prefix(dims, 3);
    lemma_product_prefix(dims, 4);
    lemma_product_prefix(dims, 5);
    lemma_product_prefix(dims, 6);
    assert(dims.take(6) == dims);
    assert(nonzero_product(dims.take(0)) == 1);
    let upto1 = nonzero_product(dims.take(1));
    let upto2 = nonzero_product(dims.take(2));
    let upto3 = nonzero_product(dims.take(3));
    let upto4 = nonzero_product(dims.take(4));
    let upto5 = nonzero_product(dims.take(5));
    assert(upto1 == 1 * or_one(dims[0]));
    assert(upto2 == upto1 * or_one(dims[1])) by (nonlinear_arith)
        requires
            upto2 == if dims[1] == 0 { upto1 } else { upto1 * dims[1] },
            or_one(dims[1]) == if dims[1] == 0 { 1 } else { dims[1] as int },
    ;
    assert(upto3 == upto2 * or_one(dims[2])) by (nonlinear_arith)
        requires
            upto3 == if dims[2] == 0 { upto2 } else { upto2 * dims[2] },
            or_one(dims[2]) == if dims[2] == 0 { 1 } else { dims[2] as int },
    ;
    assert(upto4 == upto3 * or_one(dims[3])) by (nonlinear_arith)
        requires
            upto4 == if dims[3] == 0 { upto3 } else { upto3 * dims[3] },
            or_one(dims[3]) == if dims[3] == 0 { 1 } else { dims[3] as int },
    ;
    assert(upto5 == upto4 * or_one(dims[4])) by (nonlinear_arith)
        requires
            upto5 == if dims[4] == 0 { upto4 } else { upto4 * dims[4] },
            or_one(dims[4]) == if dims[4] == 0 { 1 } else { dims[4] as int },
    ;
    assert(nonzero_product(dims) == upto5 * or_one(dims[5])) by (nonlinear_arith)
        requires
            nonzero_product(dims) == if dims[5] == 0 { upto5 } else { upto5 * dims[5] },
            or_one(dims[5]) == if dims[5] == 0 { 1 } else { dims[5] as int },
    ;
}

/// The number of cells of a shape of eight axes, written out.
pub proof fn lemma_product_8(dims: Seq<usize>)
    requires
        dims.len() == 8,
    ensures
        product(dims) == dims[0] * dims[1] * dims[2] * dims[3] * dims[4] * dims[5] * dims[6]
            * dims[7],
{
    lemma_product_prefix(dims, 1);
    lemma_product_prefix(dims, 2);
    lemma_product_prefix(dims, 3);
    lemma_product_prefix(dims, 4);
    lemma_product_prefix(dims, 5);
    lemma_product_prefix(dims, 6);
    lemma_product_prefix(dims, 7);
    lemma_product_prefix(dims, 8);
    assert(dims.take(8) == dims);
    assert(product(dims.take(0)) == 1);
}

/// One step of the flat position: the first `n` axes from the first `n - 1`.
proof fn lemma_offset_prefix(dims: Seq<usize>, idx: Seq<usize>, n: int)
    requires
        1 <= n <= dims.len(),
        idx.len() == dims.len(),
    ensures
        offset(dims.take(n), idx.take(n)) == offset(dims.take(n - 1), idx.take(n - 1)) * dims[n
            - 1] + idx[n - 1],
{
    assert(dims.take(n).drop_last() == dims.take(n - 1));
    assert(idx.take(n).drop_last() == idx.take(n - 1));
}

/// One step of the two products: the first `n` axes from the first `n - 1`.
proof fn lemma_product_prefix(dims: Seq<usize>, n: int)
    requires
        1 <= n <= dims.len(),
    ensures
        product(dims.take(n)) == product(dims.take(n - 1)) * dims[n - 1],
        nonzero_product(dims.take(n)) == if dims[n - 1] == 0 {
            nonzero_product(dims.take(n - 1))
        } else {
            nonzero_product(dims.take(n - 1)) * dims[n - 1]
        },
{
    assert(dims.take(n).drop_last() == dims.take(n - 1));
}

/// The product of the lengths that are not zero is at least one and never
/// shrinks as axes are added.
proof fn lemma_nonzero_product_grows(dims: Seq<usize>, n: int)
    requires
        0 <= n <= dims.len(),
    ensures
        1 <= nonzero_product(dims.take(n)) <= nonzero_product(dims),
    decreases dims.len() - n,
{
    if n == dims.len() {
        assert(dims.take(n) == dims);
        lemma_nonzero_product_positive(dims);
    } else {
        lemma_nonzero_product_grows(dims, n + 1);
        lemma_product_prefix(dims, n + 1);
        lemma_nonzero_product_positive(dims.take(n));
        let p = nonzero_product(dims.take(n));
        let d = dims[n] as int;
        if d != 0 {
            assert(p <= p * d) by (nonlinear_arith)
                requires
                    1 <= p,
                    1 <= d,
            ;
        }
    }
}

proof fn lemma_nonzero_product_positive(dims: Seq<usize>)
    ensures
        1 <= nonzero_product(dims),
    decreases dims.len(),
{
    if dims.len() > 0 {
        lemma_nonzero_product_positive(dims.drop_last());
        let p = nonzero_product(dims.drop_last());
        let d = dims.last() as int;
        if d != 0 {
            assert(1 <= p * d) by (nonlinear_arith)
                requires
                    1 <= p,
                    1 <= d,
            ;
        }
    }
}

/// Decides [`fits`] without overflow.
pub fn shape_fits(shape: &[usize], len: usize) -> (r: bool)
    ensures
        r == fits(shape@, len as int),
{
    let limit: usize = isize::MAX as usize;
    let mut size: usize = 1;
    let mut empty: bool = false;
    let mut i: usize = 0;
    while i < shape.len()
        invariant
            i <= shape.len(),
            limit == isize::MAX,
            size == nonzero_product(shape@.take(i as int)),
            size <= limit,
            product(shape@.take(i as int)) == if empty {
                0
            } else {
                size as int
            },
        decreases shape.len() - i,
    {
        let d: usize = shape[i];
        proof {
            lemma_product_prefix(shape@, i + 1);
        }
        if d == 0 {
            empty = true;
            assert(product(shape@.take(i + 1)) == 0) by (nonlinear_arith)
                requires
                    product(shape@.take(i + 1)) == product(shape@.take(i as int)) * 0,
            ;
        } else {
            match size.checked_mul(d) {
                Some(next) if next <= limit => {
                    proof {
                        if empty {
                            assert(product(shape@.take(i + 1)) == 0) by (nonlinear_arith)
                                requires
                                    product(shape@.take(i + 1)) == product(shape@.take(i as int))
                                        * d,
                                    product(shape@.take(i as int)) == 0,
                            ;
                        }
                    }
                    size = next;
                },
                _ => {
                    proof {
                        lemma_nonzero_product_grows(shape@, i + 1);
                    }
                    return false;
                },
            }
        }
        i += 1;
    }
    proof {
        assert(shape@.take(i as int) == shape@);
    }
    if empty {
        len == 0
    } else {
        size == len
    }
}

} // verus!
