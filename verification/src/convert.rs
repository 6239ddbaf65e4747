//! Marshalling of solution rows into a rectangular row-major buffer.
//!
//! The solver hands the binding a vector of rows (one state vector per time
//! point), and the host side wants a rectangular two-dimensional array.  The
//! number of columns taken is the length of the shortest row, so the copy can
//! never read past the end of any row, whatever shapes the rows have.
//! `RowMajor` is the plain-value image of the host array: its element type is
//! a parameter, and the binding instantiates it with the wrapped library's
//! element type when it fills the host buffer from `data`.

use vstd::prelude::*;

verus! {

/// A rectangular buffer in row-major order: entry `(r, c)` sits at
/// `data[r * ncols + c]`.
pub struct RowMajor<A> {
    /// The entries, row after row.
    pub data: Vec<A>,
    /// Number of rows.
    pub nrows: usize,
    /// Number of columns.
    pub ncols: usize,
}

impl<A> RowMajor<A> {
    /// The buffer holds exactly one entry per cell of the stated shape.
    pub open spec fn wf(self) -> bool {
        self.data@.len() == self.nrows * self.ncols
    }

    /// The entry in row `r`, column `c`.
    pub open spec fn entry(self, r: int, c: int) -> A {
        self.data@[r * (self.ncols as int) + c]
    }

    /// Read the entry in row `r`, column `c`.
    pub fn at(&self, r: usize, c: usize) -> (a: &A)
        requires
            self.wf(),
            r < self.nrows,
            c < self.ncols,
        ensures
            *a == self.entry(r as int, c as int),
    {
        proof {
            lemma_row_major_index_bound(self.nrows as int, self.ncols as int, r as int, c as int);
            assert(self.data.len() <= usize::MAX);
            assert(0 <= r * (self.ncols as int) + c < self.data@.len());
        }
        let i: usize = r * self.ncols + c;
        &self.data[i]
    }
}

/// A cell's flat index stays within a `nrows * ncols` buffer.
proof fn lemma_row_major_index_bound(nrows: int, ncols: int, r: int, c: int)
    requires
        0 <= r < nrows,
        0 <= c < ncols,
    ensures
        0 <= r * ncols + c < nrows * ncols,
{
    assert(0 <= r * ncols + c < nrows * ncols) by (nonlinear_arith)
        requires
            0 <= r < nrows,
            0 <= c < ncols,
    ;
}

/// `n` is the length of the shortest of `rows`, and `0` when there are none.
pub open spec fn is_min_row_len<A>(rows: Seq<Vec<A>>, n: nat) -> bool {
    if rows.len() == 0 {
        n == 0
    } else {
        &&& forall|i: int| 0 <= i < rows.len() ==> n <= #[trigger] rows[i]@.len()
        &&& exists|i: int| 0 <= i < rows.len() && n == #[trigger] rows[i]@.len()
    }
}

/// Only one length is the minimum.
pub proof fn lemma_min_row_len_unique<A>(rows: Seq<Vec<A>>, n1: nat, n2: nat)
    requires
        is_min_row_len(rows, n1),
        is_min_row_len(rows, n2),
    ensures
        n1 == n2,
{
    if rows.len() > 0 {
        let i1 = choose|i: int| 0 <= i < rows.len() && n1 == #[trigger] rows[i]@.len();
        let i2 = choose|i: int| 0 <= i < rows.len() && n2 == #[trigger] rows[i]@.len();
        assert(n1 <= rows[i2]@.len());
        assert(n2 <= rows[i1]@.len());
    }
}

/// When every row has the same length, that length is the minimum.
pub proof fn lemma_min_row_len_rect<A>(rows: Seq<Vec<A>>, n: nat, len: nat)
    requires
        rows.len() > 0,
        forall|i: int| 0 <= i < rows.len() ==> #[trigger] rows[i]@.len() == len,
        is_min_row_len(rows, n),
    ensures
        n == len,
{
    assert(rows[0]@.len() == len);
    let i = choose|i: int| 0 <= i < rows.len() && n == #[trigger] rows[i]@.len();
    assert(n <= rows[0]@.len());
}

/// Copy the rows into a rectangular row-major buffer, one output row per
/// input row, truncating every row to the length of the shortest one so
/// that no read can overrun a row.
pub fn vec_v_to_pyarray<A: Copy>(rows: &Vec<Vec<A>>) -> (out: RowMajor<A>)
    ensures
        out.wf(),
        out.nrows == rows@.len(),
        is_min_row_len(rows@, out.ncols as nat),
        forall|r: int, c: int|
            0 <= r < out.nrows && 0 <= c < out.ncols ==> out.entry(r, c) == #[trigger] rows@[r]@[c],
{
    let nrows = rows.len();
    let mut ncols: usize = 0;
    if nrows > 0 {
        ncols = rows[0].len();
        let mut i: usize = 1;
        while i < nrows
            invariant
                1 <= i <= nrows,
                nrows == rows@.len(),
                forall|j: int| 0 <= j < i ==> ncols <= #[trigger] rows@[j]@.len(),
                exists|j: int| 0 <= j < i && ncols == #[trigger] rows@[j]@.len(),
            decreases nrows - i,
        {
            let len_i = rows[i].len();
            if len_i < ncols {
                ncols = len_i;
            }
            i += 1;
        }
    }

    let mut data: Vec<A> = Vec::new();
    let mut r: usize = 0;
    while r < nrows
        invariant
            r <= nrows,
            nrows == rows@.len(),
            forall|j: int| 0 <= j < nrows ==> ncols <= #[trigger] rows@[j]@.len(),
            data@.len() == r * ncols,
            forall|rr: int, cc: int|
                0 <= rr < r && 0 <= cc < ncols
                    ==> data@[rr * (ncols as int) + cc] == #[trigger] rows@[rr]@[cc],
        decreases nrows - r,
    {
        let mut c: usize = 0;
        while c < ncols
            invariant
                c <= ncols,
                r < nrows,
                nrows == rows@.len(),
                forall|j: int| 0 <= j < nrows ==> ncols <= #[trigger] rows@[j]@.len(),
                data@.len() == r * ncols + c,
                forall|rr: int, cc: int|
                    0 <= rr < r && 0 <= cc < ncols
                        ==> data@[rr * (ncols as int) + cc] == #[trigger] rows@[rr]@[cc],
                forall|cc: int|
                    0 <= cc < c
                        ==> data@[r * (ncols as int) + cc] == #[trigger] rows@[r as int]@[cc],
            decreases ncols - c,
        {
            data.push(rows[r][c]);
            proof {
                assert forall|rr: int, cc: int|
                    0 <= rr < r && 0 <= cc < ncols
                        implies data@[rr * (ncols as int) + cc] == #[trigger] rows@[rr]@[cc] by {
                    lemma_row_major_index_bound(r as int, ncols as int, rr, cc);
                }
            }
            c += 1;
        }
        proof {
            assert(r * ncols + ncols == (r + 1) * ncols) by (nonlinear_arith);
            assert forall|rr: int, cc: int|
                0 <= rr < r + 1 && 0 <= cc < ncols
                    implies data@[rr * (ncols as int) + cc] == #[trigger] rows@[rr]@[cc] by {
                if rr < r {
                    assert(data@[rr * (ncols as int) + cc] == rows@[rr]@[cc]);
                } else {
                    assert(data@[r * (ncols as int) + cc] == rows@[r as int]@[cc]);
                }
            }
        }
        r += 1;
    }

    RowMajor { data, nrows, ncols }
}

/// Replace `vec_v` with the rows read from the host, all or nothing: each
/// element of `items` is one host entry, already read as a row where the
/// entry was a well-formed array and `None` where it was not.  When every
/// entry was read, `vec_v` becomes exactly those rows in order; when any
/// entry failed, `vec_v` is left untouched and the call reports failure.
pub fn set_vec_v_from_py<A>(vec_v: &mut Vec<Vec<A>>, items: Vec<Option<Vec<A>>>) -> (ok: bool)
    ensures
        ok == (forall|i: int| 0 <= i < items@.len() ==> #[trigger] items@[i] is Some),
        ok ==> final(vec_v)@.len() == items@.len(),
        ok ==> forall|i: int|
            0 <= i < items@.len() ==> Some(#[trigger] final(vec_v)@[i]) == items@[i],
        !ok ==> final(vec_v)@ == old(vec_v)@,
{
    let n = items.len();
    let mut i: usize = 0;
    while i < n
        invariant
            i <= n,
            n == items@.len(),
            forall|j: int| 0 <= j < i ==> #[trigger] items@[j] is Some,
        decreases n - i,
    {
        if items[i].is_none() {
            proof {
                assert(!(forall|j: int|
                    0 <= j < items@.len() ==> #[trigger] items@[j] is Some)) by {
                    assert(items@[i as int] is None);
                }
            }
            return false;
        }
        i += 1;
    }

    let ghost orig = items@;
    let mut rest = items;
    let mut acc: Vec<Vec<A>> = Vec::new();
    while rest.len() > 0
        invariant
            acc@.len() + rest@.len() == orig.len(),
            rest@ == orig.subrange(acc@.len() as int, orig.len() as int),
            forall|j: int| 0 <= j < orig.len() ==> #[trigger] orig[j] is Some,
            forall|j: int| 0 <= j < acc@.len() ==> Some(#[trigger] acc@[j]) == orig[j],
        decreases rest@.len(),
    {
        let ghost k = acc@.len() as int;
        proof {
            assert(orig[k] == orig.subrange(k, orig.len() as int)[0]);
        }
        let item = rest.remove(0);
        match item {
            Option::Some(row) => {
                acc.push(row);
                proof {
                    assert(rest@ =~= orig.subrange(acc@.len() as int, orig.len() as int));
                }
            },
            Option::None => {
                proof {
                    assert(false);
                }
            },
        }
    }
    *vec_v = acc;
    true
}

} // verus!
