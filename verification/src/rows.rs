//! Splitting a flat buffer of equal-length rows, as a batched encode returns
//! its embeddings, into one vector per row.

use vstd::prelude::*;

verus! {

/// Row `i` of a flat buffer whose rows hold `dim` values each.
pub open spec fn row_of<T>(flat: Seq<T>, dim: nat, i: int) -> Seq<T> {
    flat.subrange(i * dim, (i + 1) * dim)
}

/// The rows laid end to end.
pub open spec fn concat_rows<T>(rows: Seq<Seq<T>>) -> Seq<T>
    decreases rows.len(),
{
    if rows.len() == 0 {
        Seq::empty()
    } else {
        concat_rows(rows.drop_last()) + rows.last()
    }
}

proof fn lemma_row_bounds(rows: nat, dim: nat, i: int)
    requires
        0 <= i < rows,
    ensures
        0 <= i * dim,
        i * dim + dim == (i + 1) * dim,
        (i + 1) * dim <= rows * dim,
{
    assert(0 <= i * dim) by (nonlinear_arith)
        requires
            0 <= i,
    ;
    assert(i * dim + dim == (i + 1) * dim) by (nonlinear_arith);
    assert((i + 1) * dim <= rows * dim) by (nonlinear_arith)
        requires
            i + 1 <= rows,
    ;
}

/// Splits the first `rows * dim` values of `flat` into `rows` rows of `dim`
/// values each, in order; with `dim == 0` there are no rows at all.
pub fn split_rows<T: Copy>(flat: &[T], rows: usize, dim: usize) -> (out: Vec<Vec<T>>)
    requires
        rows * dim <= flat@.len(),
    ensures
        dim == 0 ==> out@.len() == 0,
        dim > 0 ==> out@.len() == rows,
        forall|i: int| 0 <= i < out@.len() ==> (#[trigger] out@[i])@ == row_of(flat@, dim as nat, i),
{
    let mut out: Vec<Vec<T>> = Vec::new();
    if dim == 0 {
        return out;
    }
    let n: usize = flat.len();
    let mut r: usize = 0;
    while r < rows
        invariant
            r <= rows,
            dim > 0,
            rows * dim <= flat@.len(),
            n == flat@.len(),
            out@.len() == r,
            forall|i: int| 0 <= i < r ==> (#[trigger] out@[i])@ == row_of(flat@, dim as nat, i),
        decreases rows - r,
    {
        proof {
            lemma_row_bounds(rows as nat, dim as nat, r as int);
            assert(r * dim + dim <= n);
        }
        let start: usize = r * dim;
        let mut row: Vec<T> = Vec::new();
        let mut k: usize = 0;
        while k < dim
            invariant
                k <= dim,
                start as int == r as int * dim as int,
                start + dim <= n,
                n == flat@.len(),
                row@ == flat@.subrange(start as int, start + k),
            decreases dim - k,
        {
            row.push(flat[start + k]);
            k = k + 1;
            assert(row@ =~= flat@.subrange(start as int, start + k));
        }
        out.push(row);
        r = r + 1;
    }
    out
}

/// Every row holds `dim` values, and value `k` of row `i` is value
/// `i * dim + k` of the buffer.
pub proof fn law_row_values<T>(flat: Seq<T>, dim: nat, i: int)
    requires
        0 <= i,
        (i + 1) * dim <= flat.len(),
    ensures
        row_of(flat, dim, i).len() == dim,
        forall|k: int| 0 <= k < dim ==> #[trigger] row_of(flat, dim, i)[k] == flat[i * dim + k],
{
    assert(0 <= i * dim) by (nonlinear_arith)
        requires
            0 <= i,
    ;
    assert(i * dim + dim == (i + 1) * dim) by (nonlinear_arith);
}

/// The rows that `split_rows` gives, laid end to end, are the first
/// `rows * dim` values of the buffer, in order.
pub proof fn law_rows_rejoin<T>(flat: Seq<T>, rows: nat, dim: nat, out: Seq<Seq<T>>)
    requires
        rows * dim <= flat.len(),
        out.len() == rows,
        forall|i: int| 0 <= i < out.len() ==> #[trigger] out[i] == row_of(flat, dim, i),
    ensures
        concat_rows(out) == flat.subrange(0, (rows * dim) as int),
    decreases rows,
{
    if rows == 0 {
        assert(flat.subrange(0, 0int) =~= Seq::<T>::empty());
    } else {
        let prev = out.drop_last();
        let r1 = (rows - 1) as nat;
        assert(r1 * dim + dim == rows * dim) by (nonlinear_arith)
            requires
                r1 + 1 == rows,
        ;
        assert(r1 * dim <= rows * dim) by (nonlinear_arith)
            requires
                r1 <= rows,
        ;
        law_rows_rejoin(flat, r1, dim, prev);
        assert(out.last() == row_of(flat, dim, r1 as int));
        let a: int = (r1 * dim) as int;
        let b: int = (rows * dim) as int;
        assert(flat.subrange(0, b) =~= flat.subrange(0, a) + flat.subrange(a, b));
    }
}

} // verus!
