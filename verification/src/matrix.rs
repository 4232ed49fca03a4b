//! Host-side matrix of reals.
//!
//! A matrix holds, as plain values, what a matrix of the engine holds, in the
//! engine's own order: column after column.  It is read out of the engine
//! through the engine's getter and converted to rows without loss.

use vstd::prelude::*;
use crate::error::{Error, Result};
use crate::types::Real;

verus! {

/// Position of element (`row`, `col`) in the storage of a matrix with `nrow`
/// rows: the engine keeps a matrix column after column.
pub open spec fn offset(nrow: int, row: int, col: int) -> int {
    col * nrow + row
}

/// An element inside the matrix lies inside its storage.
proof fn lemma_offset_in_range(nrow: int, ncol: int, row: int, col: int)
    requires
        0 <= row < nrow,
        0 <= col < ncol,
    ensures
        0 <= col * nrow <= offset(nrow, row, col) < nrow * ncol,
{
    assert(col * nrow + row < nrow * ncol) by (nonlinear_arith)
        requires
            0 <= row < nrow,
            0 <= col < ncol,
    ;
    assert(0 <= col * nrow) by (nonlinear_arith)
        requires
            0 <= nrow,
            0 <= col,
    ;
}

/// The number of rows or columns that the engine's count `n` stands for.
pub open spec fn count(n: i64) -> int {
    if n > 0 {
        n as int
    } else {
        0
    }
}

/// A matrix of reals with `nrow` rows and `ncol` columns.
pub struct Matrix {
    nrow: i64,
    ncol: i64,
    data: Vec<Real>,
}

impl Matrix {
    #[verifier::type_invariant]
    spec fn shaped(self) -> bool {
        &&& 0 <= self.nrow
        &&& 0 <= self.ncol
        &&& self.nrow * self.ncol <= i64::MAX
        &&& self.data@.len() == self.nrow * self.ncol
    }

    /// Number of rows.
    pub closed spec fn rows(&self) -> int {
        self.nrow as int
    }

    /// Number of columns.
    pub closed spec fn cols(&self) -> int {
        self.ncol as int
    }

    /// The element in row `row` and column `col`.
    pub closed spec fn at(&self, row: int, col: int) -> Real {
        self.data@[offset(self.nrow as int, row, col)]
    }

    /// The matrix of `nrow` rows and `ncol` columns, every element zero.
    ///
    /// Fails with `Overflow` when the number of elements does not fit the
    /// engine's integer, and with `NoMemory` when it fits that but cannot be
    /// addressed on this machine.
    pub fn new(nrow: i64, ncol: i64) -> (r: Result<Self>)
        requires
            0 <= nrow,
            0 <= ncol,
        ensures
            nrow * ncol > i64::MAX ==> r == Err::<Self, Error>(Error::Overflow),
            i64::MAX >= nrow * ncol > usize::MAX ==> r == Err::<Self, Error>(Error::NoMemory),
            nrow * ncol <= i64::MAX && nrow * ncol <= usize::MAX ==> r is Ok,
            r is Ok ==> r->Ok_0.rows() == nrow && r->Ok_0.cols() == ncol,
            r is Ok ==> forall|i: int, j: int|
                0 <= i < nrow && 0 <= j < ncol ==> r->Ok_0.at(i, j) == (Real { bits: 0 }),
    {
        let size: i64 = match nrow.checked_mul(ncol) {
            Some(size) => size,
            None => {
                return Err(Error::Overflow);
            },
        };
        assert(0 <= size) by (nonlinear_arith)
            requires
                size == nrow * ncol,
                0 <= nrow,
                0 <= ncol,
        ;
        if size as u64 > usize::MAX as u64 {
            return Err(Error::NoMemory);
        }
        let mut data: Vec<Real> = Vec::new();
        let mut i: i64 = 0;
        while i < size
            invariant
                0 <= i <= size,
                data@.len() == i,
                forall|k: int| 0 <= k < i ==> data@[k] == (Real { bits: 0 }),
            decreases size - i,
        {
            data.push(Real::zero());
            i += 1;
        }
        let m = Matrix { nrow, ncol, data };
        assert forall|i: int, j: int| 0 <= i < nrow && 0 <= j < ncol implies m.at(i, j) == (Real {
            bits: 0,
        }) by {
            lemma_offset_in_range(nrow as int, ncol as int, i, j);
        }
        Ok(m)
    }

    /// The matrix of `nrow` rows and `ncol` columns whose elements are those
    /// that `get` hands out for each row and column; a count that is not
    /// positive stands for none.
    ///
    /// `get` is asked once for each position, column after column.  Fails,
    /// without asking, with `Overflow` when the number of elements does not
    /// fit the engine's integer, and with `NoMemory` when it fits that but
    /// cannot be addressed on this machine.
    pub fn read<F: Fn(i64, i64) -> Real>(nrow: i64, ncol: i64, get: F) -> (r: Result<Self>)
        requires
            forall|row: i64, col: i64|
                0 <= row < nrow && 0 <= col < ncol ==> call_requires(get, (row, col)),
        ensures
            count(nrow) * count(ncol) > i64::MAX ==> r is Err && r->Err_0 == Error::Overflow,
            i64::MAX >= count(nrow) * count(ncol) > usize::MAX ==> r is Err && r->Err_0
                == Error::NoMemory,
            count(nrow) * count(ncol) <= i64::MAX && count(nrow) * count(ncol) <= usize::MAX ==> r
                is Ok,
            r is Ok ==> r->Ok_0.rows() == count(nrow) && r->Ok_0.cols() == count(ncol),
            r is Ok ==> forall|row: i64, col: i64|
                0 <= row < nrow && 0 <= col < ncol ==> call_ensures(
                    get,
                    (row, col),
                    #[trigger] r->Ok_0.at(row as int, col as int),
                ),
    {
        let rows: i64 = if nrow > 0 {
            nrow
        } else {
            0
        };
        let cols: i64 = if ncol > 0 {
            ncol
        } else {
            0
        };
        let size: i64 = match rows.checked_mul(cols) {
            Some(size) => size,
            None => {
                return Err(Error::Overflow);
            },
        };
        assert(0 <= size) by (nonlinear_arith)
            requires
                size == rows * cols,
                0 <= rows,
                0 <= cols,
        ;
        if size as u64 > usize::MAX as u64 {
            return Err(Error::NoMemory);
        }
        let mut data: Vec<Real> = Vec::new();
        let mut col: i64 = 0;
        while col < cols
            invariant
                0 <= col <= cols,
                0 <= rows,
                rows == count(nrow),
                cols == count(ncol),
                rows * cols == size,
                data@.len() == rows * col,
                forall|r: i64, c: i64|
                    0 <= r < nrow && 0 <= c < ncol ==> call_requires(get, (r, c)),
                forall|r: i64, c: i64|
                    0 <= r < rows && 0 <= c < col ==> call_ensures(
                        get,
                        (r, c),
                        #[trigger] data@[offset(rows as int, r as int, c as int)],
                    ),
            decreases cols - col,
        {
            let mut row: i64 = 0;
            while row < rows
                invariant
                    0 <= row <= rows,
                    0 <= col < cols,
                    rows == count(nrow),
                    cols == count(ncol),
                    data@.len() == rows * col + row,
                    forall|r: i64, c: i64|
                        0 <= r < nrow && 0 <= c < ncol ==> call_requires(get, (r, c)),
                    forall|r: i64, c: i64|
                        0 <= r < rows && 0 <= c < col ==> call_ensures(
                            get,
                            (r, c),
                            #[trigger] data@[offset(rows as int, r as int, c as int)],
                        ),
                    forall|r: i64|
                        0 <= r < row ==> call_ensures(
                            get,
                            (r, col),
                            #[trigger] data@[offset(rows as int, r as int, col as int)],
                        ),
                decreases rows - row,
            {
                let value = get(row, col);
                let ghost before = data@;
                data.push(value);
                proof {
                    assert forall|r: i64, c: i64| 0 <= r < rows && 0 <= c < col implies call_ensures(
                        get,
                        (r, c),
                        #[trigger] data@[offset(rows as int, r as int, c as int)],
                    ) by {
                        lemma_offset_in_range(rows as int, col as int, r as int, c as int);
                        assert(data@[offset(rows as int, r as int, c as int)] == before[offset(
                            rows as int,
                            r as int,
                            c as int,
                        )]);
                    }
                    assert(offset(rows as int, row as int, col as int) == rows * col + row)
                        by (nonlinear_arith);
                    assert forall|r: i64| 0 <= r < row + 1 implies call_ensures(
                        get,
                        (r, col),
                        #[trigger] data@[offset(rows as int, r as int, col as int)],
                    ) by {
                        assert(offset(rows as int, r as int, col as int) == rows * col + r)
                            by (nonlinear_arith);
                        if r < row {
                            assert(data@[offset(rows as int, r as int, col as int)] == before[offset(
                                rows as int,
                                r as int,
                                col as int,
                            )]);
                        }
                    }
                }
                row += 1;
            }
            proof {
                assert(rows * (col + 1) == rows * col + rows) by (nonlinear_arith);
            }
            col += 1;
        }
        let m = Matrix { nrow: rows, ncol: cols, data };
        Ok(m)
    }

    /// Number of rows.
    pub fn nrow(&self) -> (n: i64)
        ensures
            n == self.rows(),
            n >= 0,
    {
        proof {
            use_type_invariant(self);
        }
        self.nrow
    }

    /// Number of columns.
    pub fn ncol(&self) -> (n: i64)
        ensures
            n == self.cols(),
            n >= 0,
    {
        proof {
            use_type_invariant(self);
        }
        self.ncol
    }

    /// The element in row `row` and column `col`.
    pub fn get(&self, row: i64, col: i64) -> (value: Real)
        requires
            0 <= row < self.rows(),
            0 <= col < self.cols(),
        ensures
            value == self.at(row as int, col as int),
    {
        proof {
            use_type_invariant(self);
            lemma_offset_in_range(self.nrow as int, self.ncol as int, row as int, col as int);
        }
        let n = self.data.len();
        let at = col * self.nrow + row;
        self.data[at as usize]
    }

    /// The rows of the matrix, in order, as host sequences of their own.
    pub fn to_vec_of_vecs(&self) -> (v: Vec<Vec<Real>>)
        ensures
            v@.len() == self.rows(),
            forall|i: int| 0 <= i < self.rows() ==> (#[trigger] v@[i])@.len() == self.cols(),
            forall|i: int, j: int|
                0 <= i < self.rows() && 0 <= j < self.cols() ==> (#[trigger] v@[i]@[j])
                    == self.at(i, j),
    {
        let nrow = self.nrow();
        let ncol = self.ncol();
        let mut v: Vec<Vec<Real>> = Vec::new();
        let mut r: i64 = 0;
        while r < nrow
            invariant
                0 <= r <= nrow,
                0 <= ncol,
                nrow == self.rows(),
                ncol == self.cols(),
                v@.len() == r,
                forall|i: int| 0 <= i < r ==> (#[trigger] v@[i])@.len() == ncol,
                forall|i: int, j: int|
                    0 <= i < r && 0 <= j < ncol ==> (#[trigger] v@[i]@[j]) == self.at(i, j),
            decreases nrow - r,
        {
            let mut line: Vec<Real> = Vec::new();
            let mut c: i64 = 0;
            while c < ncol
                invariant
                    0 <= r < nrow,
                    0 <= c <= ncol,
                    nrow == self.rows(),
                    ncol == self.cols(),
                    line@.len() == c,
                    forall|j: int| 0 <= j < c ==> (#[trigger] line@[j]) == self.at(r as int, j),
                decreases ncol - c,
            {
                line.push(self.get(r, c));
                c += 1;
            }
            v.push(line);
            r += 1;
        }
        v
    }
}

} // verus!
