//! Dense matrix engine.
//!
//! A `Matrix` is a rows x cols grid of fixed-point scalars stored row-major.
//! The view of a matrix is the grid of its component mantissas, as a
//! sequence of rows. On top of the grid live multiplication, transposition,
//! determinant by recursive cofactor expansion, inversion by the
//! adjugate-over-determinant formula, and the standard homogeneous
//! transformation constructors.

use crate::roughly::RoughlyEqual;
use crate::scalar::{fits_i64, sabs, sdiv, smul, Scalar, EPSILON_M, SCALE};
use crate::trig::{scos, ssin};
use crate::tuple::{tup, Point, Tuple, Vector};
use vstd::prelude::*;

verus! {

/// The recoverable failures of the matrix engine.
#[derive(Clone, Copy, Debug, PartialEq, Eq, Structural)]
pub enum MatrixError {
    /// A value list whose length does not match the requested shape.
    ShapeMismatch,
    /// Multiplication of matrices whose inner dimensions differ.
    DimensionMismatch,
    /// Inversion of a matrix whose determinant is roughly zero.
    SingularMatrix,
}

/// A rows x cols grid of scalars, row-major.
#[derive(Clone, Debug)]
pub struct Matrix {
    pub rows: usize,
    pub cols: usize,
    pub data: Vec<Scalar>,
}

/// The grid of mantissas denoted by shape and flat data.
pub open spec fn vgrid(rows: int, cols: int, s: Seq<Scalar>) -> Seq<Seq<int>> {
    Seq::new(rows as nat, |r: int| Seq::new(cols as nat, |c: int| s[r * cols + c]@))
}

/// The grid `g` has `rows` rows of `cols` entries each.
pub open spec fn rect(g: Seq<Seq<int>>, rows: int, cols: int) -> bool {
    &&& g.len() == rows
    &&& forall|r: int| 0 <= r < rows ==> (#[trigger] g[r]).len() == cols
}

/// The sequence `s` with element `i` removed, order preserved.
pub open spec fn seq_del<A>(s: Seq<A>, i: int) -> Seq<A> {
    s.subrange(0, i) + s.subrange(i + 1, s.len() as int)
}

/// The grid with one row and one column removed, order preserved.
pub open spec fn sub_grid(g: Seq<Seq<int>>, rr: int, rc: int) -> Seq<Seq<int>> {
    seq_del(g, rr).map_values(|row: Seq<int>| seq_del(row, rc))
}

/// The transposed grid.
pub open spec fn strans(g: Seq<Seq<int>>, rows: int, cols: int) -> Seq<Seq<int>> {
    Seq::new(cols as nat, |r: int| Seq::new(rows as nat, |c: int| g[c][r]))
}

/// Partial dot product of row `r` of `a` with column `c` of `b`: the sum of
/// the first `k` products, accumulated left to right.
pub open spec fn mrowdot(a: Seq<Seq<int>>, b: Seq<Seq<int>>, r: int, c: int, k: int) -> int
    decreases k,
{
    if k <= 0 {
        0
    } else {
        mrowdot(a, b, r, c, k - 1) + smul(a[r][k - 1], b[k - 1][c])
    }
}

/// The product grid: cell (r, c) is the dot product of row `r` of `a` and
/// column `c` of `b` over the `inner` shared dimension.
pub open spec fn mmul(
    a: Seq<Seq<int>>,
    b: Seq<Seq<int>>,
    rows: int,
    inner: int,
    cols: int,
) -> Seq<Seq<int>> {
    Seq::new(rows as nat, |r: int| Seq::new(cols as nat, |c: int| mrowdot(a, b, r, c, inner)))
}

/// Every product and every partial sum of the multiplication fits an `i64`
/// mantissa.
pub open spec fn mmul_ok(
    a: Seq<Seq<int>>,
    b: Seq<Seq<int>>,
    rows: int,
    inner: int,
    cols: int,
) -> bool {
    forall|r: int, c: int, k: int|
        0 <= r < rows && 0 <= c < cols && 0 <= k < inner ==> {
            &&& fits_i64(#[trigger] smul(a[r][k], b[k][c]))
            &&& fits_i64(mrowdot(a, b, r, c, k + 1))
        }
}

/// Determinant of a grid, by cofactor expansion along row 0, with the same
/// roundings the executable code performs. The base case is the 2x2
/// determinant `ad - bc`; larger grids sum `entry * cofactor` left to right.
pub open spec fn sdet(g: Seq<Seq<int>>) -> int
    decreases g.len(), 2int, 0int,
{
    if g.len() == 2 {
        smul(g[0][0], g[1][1]) - smul(g[0][1], g[1][0])
    } else {
        sdet_sum(g, g.len() as int)
    }
}

/// The first `k` terms of the cofactor expansion along row 0.
pub open spec fn sdet_sum(g: Seq<Seq<int>>, k: int) -> int
    decreases g.len(), 1int, k,
{
    if k <= 0 {
        0
    } else {
        sdet_sum(g, k - 1) + smul(g[0][k - 1], scof(g, 0, k - 1))
    }
}

/// Cofactor (r, c): the minor — the determinant of the grid with row `r`
/// and column `c` removed — negated when `r + c` is odd.
pub open spec fn scof(g: Seq<Seq<int>>, r: int, c: int) -> int
    decreases g.len(), 0int, 0int,
{
    if 1 <= g.len() && 0 <= r < g.len() && 0 <= c {
        if (r + c) % 2 == 1 {
            -sdet(sub_grid(g, r, c))
        } else {
            sdet(sub_grid(g, r, c))
        }
    } else {
        0
    }
}

/// Every intermediate of the determinant computation fits an `i64`.
pub open spec fn sdet_ok(g: Seq<Seq<int>>) -> bool
    decreases g.len(), 2int, 0int,
{
    if g.len() == 2 {
        fits_i64(smul(g[0][0], g[1][1])) && fits_i64(smul(g[0][1], g[1][0])) && fits_i64(
            smul(g[0][0], g[1][1]) - smul(g[0][1], g[1][0]),
        )
    } else {
        &&& forall|c: int| #![trigger scof(g, 0, c)] 0 <= c < g.len() ==> scof_ok(g, 0, c)
        &&& forall|c: int|
            0 <= c < g.len() ==> fits_i64(#[trigger] smul(g[0][c], scof(g, 0, c)))
        &&& forall|k: int| 0 <= k <= g.len() ==> fits_i64(#[trigger] sdet_sum(g, k))
    }
}

/// Every intermediate of one cofactor computation fits an `i64`.
pub open spec fn scof_ok(g: Seq<Seq<int>>, r: int, c: int) -> bool
    decreases g.len(), 0int, 0int,
{
    if 1 <= g.len() && 0 <= r < g.len() && 0 <= c {
        &&& sdet_ok(sub_grid(g, r, c))
        &&& fits_i64(sdet(sub_grid(g, r, c)))
        &&& -(i64::MAX as int) <= sdet(sub_grid(g, r, c))
    } else {
        true
    }
}

/// The inverse grid: entry (r, c) is cofactor (c, r) — indices swapped, the
/// transpose of the adjugate — divided by the determinant.
pub open spec fn sinv(g: Seq<Seq<int>>, n: int) -> Seq<Seq<int>> {
    Seq::new(n as nat, |r: int| Seq::new(n as nat, |c: int| sdiv(scof(g, c, r), sdet(g))))
}

/// Every cofactor and quotient of the inversion fits an `i64`.
pub open spec fn sinv_ok(g: Seq<Seq<int>>, n: int) -> bool {
    forall|r: int, c: int|
        0 <= r < n && 0 <= c < n ==> {
            &&& #[trigger] scof_ok(g, r, c)
            &&& fits_i64(scof(g, r, c))
            &&& sdet(g) != 0 ==> fits_i64(sdiv(scof(g, r, c), sdet(g)))
        }
}

/// A vector's length always fits in `usize`.
proof fn lemma_data_len(m: &Matrix)
    ensures
        m.data@.len() <= usize::MAX,
{
    broadcast use vstd::std_specs::vec::axiom_spec_len;

    assert(vstd::std_specs::vec::spec_vec_len(&m.data) == m.data@.len());
}

/// Row-major flat index bounds: `r * cols + c` addresses within the grid.
proof fn lemma_flat_index(r: int, c: int, rows: int, cols: int)
    requires
        0 <= r < rows,
        0 <= c < cols,
    ensures
        0 <= r * cols + c < rows * cols,
        r * cols + c == (r * cols + c),
{
    assert(0 <= r * cols + c && r * cols + c < rows * cols) by (nonlinear_arith)
        requires
            0 <= r < rows,
            0 <= c < cols,
    ;
}

impl View for Matrix {
    type V = Seq<Seq<int>>;

    open spec fn view(&self) -> Seq<Seq<int>> {
        vgrid(self.rows as int, self.cols as int, self.data@)
    }
}

impl Matrix {
    /// The flat data holds exactly rows x cols entries.
    pub open spec fn wf(&self) -> bool {
        self.data@.len() == (self.rows as int) * (self.cols as int)
    }

    /// A zero-filled rows x cols matrix.
    pub fn new(rows: usize, cols: usize) -> (r: Matrix)
        requires
            (rows as int) * (cols as int) <= usize::MAX,
        ensures
            r.wf(),
            r.rows == rows,
            r.cols == cols,
            rect(r@, rows as int, cols as int),
            forall|i: int, j: int|
                0 <= i < rows && 0 <= j < cols ==> #[trigger] r@[i][j] == 0,
    {
        let n: usize = rows * cols;
        let mut data: Vec<Scalar> = Vec::new();
        let mut k: usize = 0;
        while k < n
            invariant
                data@.len() == k,
                k <= n,
                forall|i: int| 0 <= i < k ==> (#[trigger] data@[i])@ == 0,
            decreases n - k,
        {
            data.push(Scalar::zero());
            k = k + 1;
        }
        let m = Matrix { rows, cols, data };
        proof {
            assert forall|i: int, j: int|
                0 <= i < rows && 0 <= j < cols implies #[trigger] m@[i][j] == 0 by {
                lemma_flat_index(i, j, rows as int, cols as int);
            }
        }
        m
    }

    /// A matrix filled from a row-major value list; fails with
    /// `ShapeMismatch` exactly when the list length is not rows x cols.
    pub fn with_values(rows: usize, cols: usize, values: Vec<Scalar>) -> (r: Result<
        Matrix,
        MatrixError,
    >)
        ensures
            r is Ok <==> values@.len() == (rows as int) * (cols as int),
            r matches Ok(m) ==> {
                &&& m.wf()
                &&& m.rows == rows
                &&& m.cols == cols
                &&& m.data@ == values@
                &&& m@ == vgrid(rows as int, cols as int, values@)
            },
            r matches Err(e) ==> e == MatrixError::ShapeMismatch,
    {
        let expected: Option<usize> = rows.checked_mul(cols);
        match expected {
            Some(n) => {
                if values.len() != n {
                    Err(MatrixError::ShapeMismatch)
                } else {
                    Ok(Matrix { rows, cols, data: values })
                }
            },
            None => {
                proof {
                    broadcast use vstd::std_specs::vec::axiom_spec_len;

                    assert(vstd::std_specs::vec::spec_vec_len(&values) == values@.len());
                    assert(values@.len() <= usize::MAX < (rows as int) * (cols as int));
                }
                Err(MatrixError::ShapeMismatch)
            },
        }
    }

    /// The entry at (row, col); indices must be in bounds.
    pub fn value_at(&self, row: usize, col: usize) -> (r: Scalar)
        requires
            self.wf(),
            row < self.rows,
            col < self.cols,
        ensures
            r@ == self@[row as int][col as int],
    {
        proof {
            lemma_data_len(self);
            lemma_flat_index(row as int, col as int, self.rows as int, self.cols as int);
        }
        self.data[row * self.cols + col]
    }

    /// Overwrites the entry at (row, col); indices must be in bounds.
    pub fn set_value(&mut self, row: usize, col: usize, value: Scalar)
        requires
            old(self).wf(),
            row < old(self).rows,
            col < old(self).cols,
        ensures
            final(self).wf(),
            final(self).rows == old(self).rows,
            final(self).cols == old(self).cols,
            final(self)@[row as int][col as int] == value@,
            forall|i: int, j: int|
                0 <= i < final(self).rows && 0 <= j < final(self).cols && !(i == row && j == col)
                    ==> #[trigger] final(self)@[i][j] == old(self)@[i][j],
    {
        proof {
            lemma_data_len(self);
            lemma_flat_index(row as int, col as int, self.rows as int, self.cols as int);
        }
        let idx: usize = row * self.cols + col;
        self.data[idx] = value;
        proof {
            assert forall|i: int, j: int|
                0 <= i < self.rows && 0 <= j < self.cols && !(i == row as int && j == col as int)
                    implies #[trigger] self@[i][j] == old(self)@[i][j] by {
                lemma_flat_index(i, j, self.rows as int, self.cols as int);
                if i * (self.cols as int) + j == (row as int) * (self.cols as int) + (col as int) {
                    assert(i == row as int && j == col as int) by (nonlinear_arith)
                        requires
                            0 <= i,
                            0 <= j < (self.cols as int),
                            0 <= (row as int),
                            0 <= (col as int),
                            (col as int) < (self.cols as int),
                            i * (self.cols as int) + j == (row as int) * (self.cols as int) + (
                            col as int),
                    ;
                }
            }
        }
    }

    /// The matrix with rows and columns swapped.
    pub fn transpose(&self) -> (r: Matrix)
        requires
            self.wf(),
        ensures
            r.wf(),
            r.rows == self.cols,
            r.cols == self.rows,
            r@ == strans(self@, self.rows as int, self.cols as int),
    {
        proof {
            lemma_data_len(self);
            assert((self.cols as int) * (self.rows as int) == (self.rows as int) * (
            self.cols as int)) by (nonlinear_arith);
        }
        let mut result = Matrix::new(self.cols, self.rows);
        let mut row: usize = 0;
        while row < self.rows
            invariant
                self.wf(),
                result.wf(),
                result.rows == self.cols,
                result.cols == self.rows,
                row <= self.rows,
                forall|i: int, j: int|
                    0 <= i < self.cols && 0 <= j < self.rows ==> #[trigger] result@[i][j] == (
                    if j < row {
                        self@[j][i]
                    } else {
                        0
                    }),
            decreases self.rows - row,
        {
            let mut col: usize = 0;
            while col < self.cols
                invariant
                    self.wf(),
                    result.wf(),
                    result.rows == self.cols,
                    result.cols == self.rows,
                    row < self.rows,
                    col <= self.cols,
                    forall|i: int, j: int|
                        0 <= i < self.cols && 0 <= j < self.rows ==> #[trigger] result@[i][j] == (
                        if j < row || (j == row && i < col) {
                            self@[j][i]
                        } else {
                            0
                        }),
                decreases self.cols - col,
            {
                let v = self.value_at(row, col);
                result.set_value(col, row, v);
                col = col + 1;
            }
            row = row + 1;
        }
        proof {
            assert(result@ =~~= strans(self@, self.rows as int, self.cols as int));
        }
        result
    }

    /// The matrix product; fails with `DimensionMismatch` exactly when the
    /// inner dimensions differ. Cell (r, c) of the product is the dot
    /// product of row r of `self` and column c of `other`.
    pub fn matmul(&self, other: &Matrix) -> (r: Result<Matrix, MatrixError>)
        requires
            self.wf(),
            other.wf(),
            self.cols == other.rows ==> mmul_ok(
                self@,
                other@,
                self.rows as int,
                self.cols as int,
                other.cols as int,
            ),
            self.cols == other.rows ==> (self.rows as int) * (other.cols as int) <= usize::MAX,
        ensures
            r is Ok <==> self.cols == other.rows,
            r matches Ok(m) ==> {
                &&& m.wf()
                &&& m.rows == self.rows
                &&& m.cols == other.cols
                &&& m@ == mmul(self@, other@, self.rows as int, self.cols as int, other.cols as int)
            },
            r matches Err(e) ==> e == MatrixError::DimensionMismatch,
    {
        if self.cols != other.rows {
            return Err(MatrixError::DimensionMismatch);
        }
        let mut result = Matrix::new(self.rows, other.cols);
        let mut row: usize = 0;
        while row < self.rows
            invariant
                self.wf(),
                other.wf(),
                self.cols == other.rows,
                mmul_ok(self@, other@, self.rows as int, self.cols as int, other.cols as int),
                result.wf(),
                result.rows == self.rows,
                result.cols == other.cols,
                row <= self.rows,
                forall|i: int, j: int|
                    0 <= i < self.rows && 0 <= j < other.cols ==> #[trigger] result@[i][j] == (
                    if i < row {
                        mrowdot(self@, other@, i, j, self.cols as int)
                    } else {
                        0
                    }),
            decreases self.rows - row,
        {
            let mut col: usize = 0;
            while col < other.cols
                invariant
                    self.wf(),
                    other.wf(),
                    self.cols == other.rows,
                    mmul_ok(self@, other@, self.rows as int, self.cols as int, other.cols as int),
                    result.wf(),
                    result.rows == self.rows,
                    result.cols == other.cols,
                    row < self.rows,
                    col <= other.cols,
                    forall|i: int, j: int|
                        0 <= i < self.rows && 0 <= j < other.cols ==> #[trigger] result@[i][j] == (
                        if i < row || (i == row && j < col) {
                            mrowdot(self@, other@, i, j, self.cols as int)
                        } else {
                            0
                        }),
                decreases other.cols - col,
            {
                let mut acc = Scalar::zero();
                let mut k: usize = 0;
                while k < self.cols
                    invariant
                        self.wf(),
                        other.wf(),
                        self.cols == other.rows,
                        mmul_ok(
                            self@,
                            other@,
                            self.rows as int,
                            self.cols as int,
                            other.cols as int,
                        ),
                        row < self.rows,
                        col < other.cols,
                        k <= self.cols,
                        acc@ == mrowdot(self@, other@, row as int, col as int, k as int),
                        fits_i64(acc@),
                    decreases self.cols - k,
                {
                    let term = self.value_at(row, k) * other.value_at(k, col);
                    acc = acc + term;
                    k = k + 1;
                }
                result.set_value(row, col, acc);
                col = col + 1;
            }
            row = row + 1;
        }
        proof {
            assert(result@ =~~= mmul(
                self@,
                other@,
                self.rows as int,
                self.cols as int,
                other.cols as int,
            ));
        }
        Ok(result)
    }

    /// The (rows-1) x (cols-1) matrix with one row and one column deleted,
    /// remaining entries in their original order.
    pub fn submatrix(&self, remove_row: usize, remove_col: usize) -> (r: Matrix)
        requires
            self.wf(),
            self.rows >= 2,
            self.cols >= 2,
            remove_row < self.rows,
            remove_col < self.cols,
        ensures
            r.wf(),
            r.rows == self.rows - 1,
            r.cols == self.cols - 1,
            r@ == sub_grid(self@, remove_row as int, remove_col as int),
    {
        proof {
            assert((self.rows as int - 1) * (self.cols as int - 1) <= (self.rows as int) * (
            self.cols as int)) by (nonlinear_arith)
                requires
                    self.rows >= 2,
                    self.cols >= 2,
            ;
            lemma_data_len(self);
        }
        let mut result = Matrix::new(self.rows - 1, self.cols - 1);
        let mut row: usize = 0;
        while row < self.rows
            invariant
                self.wf(),
                result.wf(),
                result.rows == self.rows - 1,
                result.cols == self.cols - 1,
                self.rows >= 2,
                self.cols >= 2,
                remove_row < self.rows,
                remove_col < self.cols,
                row <= self.rows,
                forall|i: int, j: int|
                    0 <= i < result.rows && 0 <= j < result.cols ==> #[trigger] result@[i][j] == (
                    if (if i < remove_row {
                        i
                    } else {
                        i + 1
                    }) < row {
                        self@[if i < remove_row {
                            i
                        } else {
                            i + 1
                        }][if j < remove_col {
                            j
                        } else {
                            j + 1
                        }]
                    } else {
                        0
                    }),
            decreases self.rows - row,
        {
            if row != remove_row {
                let dest_row: usize = if row < remove_row {
                    row
                } else {
                    row - 1
                };
                let mut col: usize = 0;
                while col < self.cols
                    invariant
                        self.wf(),
                        result.wf(),
                        result.rows == self.rows - 1,
                        result.cols == self.cols - 1,
                        self.rows >= 2,
                        self.cols >= 2,
                        remove_row < self.rows,
                        remove_col < self.cols,
                        row < self.rows,
                        row != remove_row,
                        dest_row == (if row < remove_row {
                            row as int
                        } else {
                            row - 1
                        }),
                        col <= self.cols,
                        forall|i: int, j: int|
                            0 <= i < result.rows && 0 <= j < result.cols
                                ==> #[trigger] result@[i][j] == (
                            if (if i < remove_row {
                                i
                            } else {
                                i + 1
                            }) < row || (i == dest_row && (if j < remove_col {
                                j
                            } else {
                                j + 1
                            }) < col) {
                                self@[if i < remove_row {
                                    i
                                } else {
                                    i + 1
                                }][if j < remove_col {
                                    j
                                } else {
                                    j + 1
                                }]
                            } else {
                                0
                            }),
                    decreases self.cols - col,
                {
                    if col != remove_col {
                        let dest_col: usize = if col < remove_col {
                            col
                        } else {
                            col - 1
                        };
                        let v = self.value_at(row, col);
                        result.set_value(dest_row, dest_col, v);
                    }
                    col = col + 1;
                }
            }
            row = row + 1;
        }
        proof {
            let s = sub_grid(self@, remove_row as int, remove_col as int);
            assert(s.len() == result.rows as int);
            assert forall|i: int| 0 <= i < result.rows implies #[trigger] result@[i] =~= s[i] by {
                let src = if i < remove_row {
                    i
                } else {
                    i + 1
                };
                assert(seq_del(self@, remove_row as int)[i] == self@[src]);
                assert(s[i] == seq_del(self@[src], remove_col as int));
            }
            assert(result@ =~~= s);
        }
        result
    }
}

impl Matrix {
    /// Determinant of a square matrix, by recursive cofactor expansion
    /// along row 0; the 2x2 case is `ad - bc`.
    pub fn determinant(&self) -> (r: Scalar)
        requires
            self.wf(),
            self.rows == self.cols,
            self.rows >= 2,
            sdet_ok(self@),
        ensures
            r@ == sdet(self@),
        decreases self.rows, 2int,
    {
        if self.rows == 2 {
            self.value_at(0, 0) * self.value_at(1, 1) - self.value_at(0, 1) * self.value_at(1, 0)
        } else {
            let mut det = Scalar::zero();
            let mut col: usize = 0;
            while col < self.cols
                invariant
                    self.wf(),
                    self.rows == self.cols,
                    self.rows >= 3,
                    sdet_ok(self@),
                    col <= self.cols,
                    det@ == sdet_sum(self@, col as int),
                    fits_i64(det@),
                decreases self.cols - col,
            {
                proof {
                    assert(self@.len() == self.rows as int);
                    let sc = scof(self@, 0, col as int);
                    assert(scof_ok(self@, 0, col as int));
                    assert(fits_i64(smul(self@[0][col as int], sc)));
                    assert(fits_i64(sdet_sum(self@, col as int + 1)));
                }
                det = det + self.value_at(0, col) * self.cofactor(0, col);
                col = col + 1;
            }
            det
        }
    }

    /// The determinant of the submatrix with `row` and `col` removed.
    pub fn minor(&self, row: usize, col: usize) -> (r: Scalar)
        requires
            self.wf(),
            self.rows == self.cols,
            self.rows >= 3,
            row < self.rows,
            col < self.cols,
            sdet_ok(sub_grid(self@, row as int, col as int)),
        ensures
            r@ == sdet(sub_grid(self@, row as int, col as int)),
        decreases self.rows, 0int,
    {
        self.submatrix(row, col).determinant()
    }

    /// The minor at (row, col), negated when `row + col` is odd.
    pub fn cofactor(&self, row: usize, col: usize) -> (r: Scalar)
        requires
            self.wf(),
            self.rows == self.cols,
            self.rows >= 3,
            row < self.rows,
            col < self.cols,
            scof_ok(self@, row as int, col as int),
        ensures
            r@ == scof(self@, row as int, col as int),
        decreases self.rows, 1int,
    {
        proof {
            lemma_data_len(self);
            assert((self.rows as int) * (self.cols as int) >= 3 * (self.rows as int))
                by (nonlinear_arith)
                requires
                    self.rows >= 3,
                    self.cols == self.rows,
            ;
        }
        let m = self.minor(row, col);
        if (row + col) % 2 == 1 {
            Scalar::zero() - m
        } else {
            m
        }
    }

    /// Whether the determinant is not roughly equal to zero.
    pub fn invertible(&self) -> (r: bool)
        requires
            self.wf(),
            self.rows == self.cols,
            self.rows >= 2,
            sdet_ok(self@),
        ensures
            r == (sabs(sdet(self@)) >= EPSILON_M),
    {
        let d = self.determinant();
        !d.roughly_equal(&Scalar::zero())
    }

    /// The inverse, by the adjugate-transpose-over-determinant formula:
    /// entry (col, row) of the result is cofactor (row, col) divided by the
    /// determinant. Fails with `SingularMatrix` exactly when the matrix is
    /// not invertible.
    pub fn inverse(&self) -> (r: Result<Matrix, MatrixError>)
        requires
            self.wf(),
            self.rows == self.cols,
            self.rows >= 3,
            sdet_ok(self@),
            sinv_ok(self@, self.rows as int),
        ensures
            r is Ok <==> sabs(sdet(self@)) >= EPSILON_M,
            r matches Ok(m) ==> {
                &&& m.wf()
                &&& m.rows == self.rows
                &&& m.cols == self.cols
                &&& m@ == sinv(self@, self.rows as int)
            },
            r matches Err(e) ==> e == MatrixError::SingularMatrix,
    {
        if !self.invertible() {
            Err(MatrixError::SingularMatrix)
        } else {
            let self_determinant = self.determinant();
            proof {
                lemma_data_len(self);
            }
            let mut m2 = Matrix::new(self.rows, self.cols);
            let mut row: usize = 0;
            while row < self.rows
                invariant
                    self.wf(),
                    self.rows == self.cols,
                    self.rows >= 3,
                    sdet_ok(self@),
                    sinv_ok(self@, self.rows as int),
                    sabs(sdet(self@)) >= EPSILON_M,
                    self_determinant@ == sdet(self@),
                    m2.wf(),
                    m2.rows == self.rows,
                    m2.cols == self.cols,
                    row <= self.rows,
                    forall|i: int, j: int|
                        0 <= i < self.rows && 0 <= j < self.cols ==> #[trigger] m2@[i][j] == (
                        if j < row {
                            sdiv(scof(self@, j, i), sdet(self@))
                        } else {
                            0
                        }),
                decreases self.rows - row,
            {
                let mut col: usize = 0;
                while col < self.cols
                    invariant
                        self.wf(),
                        self.rows == self.cols,
                        self.rows >= 3,
                        sdet_ok(self@),
                        sinv_ok(self@, self.rows as int),
                        sabs(sdet(self@)) >= EPSILON_M,
                        self_determinant@ == sdet(self@),
                        m2.wf(),
                        m2.rows == self.rows,
                        m2.cols == self.cols,
                        row < self.rows,
                        col <= self.cols,
                        forall|i: int, j: int|
                            0 <= i < self.rows && 0 <= j < self.cols ==> #[trigger] m2@[i][j] == (
                            if j < row || (j == row && i < col) {
                                sdiv(scof(self@, j, i), sdet(self@))
                            } else {
                                0
                            }),
                    decreases self.cols - col,
                {
                    let c = self.cofactor(row, col);
                    proof {
                        assert(scof_ok(self@, row as int, col as int));
                        assert(self_determinant@ != 0);
                        assert(fits_i64(sdiv(scof(self@, row as int, col as int), sdet(self@))));
                    }
                    m2.set_value(col, row, c / self_determinant);
                    col = col + 1;
                }
                row = row + 1;
            }
            proof {
                assert(m2@ =~~= sinv(self@, self.rows as int));
            }
            Ok(m2)
        }
    }
}

/// The 4x4 identity grid.
pub open spec fn sidentity4() -> Seq<Seq<int>> {
    seq![
        seq![SCALE as int, 0, 0, 0],
        seq![0, SCALE as int, 0, 0],
        seq![0, 0, SCALE as int, 0],
        seq![0, 0, 0, SCALE as int],
    ]
}

/// The homogeneous translation grid: identity with (x, y, z) in the last
/// column.
pub open spec fn stranslation(x: int, y: int, z: int) -> Seq<Seq<int>> {
    seq![
        seq![SCALE as int, 0, 0, x],
        seq![0, SCALE as int, 0, y],
        seq![0, 0, SCALE as int, z],
        seq![0, 0, 0, SCALE as int],
    ]
}

/// The scaling grid: diagonal (x, y, z, 1).
pub open spec fn sscaling(x: int, y: int, z: int) -> Seq<Seq<int>> {
    seq![
        seq![x, 0, 0, 0],
        seq![0, y, 0, 0],
        seq![0, 0, z, 0],
        seq![0, 0, 0, SCALE as int],
    ]
}

/// The shearing grid: identity with the six off-diagonal coefficients.
pub open spec fn sshearing(xy: int, xz: int, yx: int, yz: int, zx: int, zy: int) -> Seq<
    Seq<int>,
> {
    seq![
        seq![SCALE as int, xy, xz, 0],
        seq![yx, SCALE as int, yz, 0],
        seq![zx, zy, SCALE as int, 0],
        seq![0, 0, 0, SCALE as int],
    ]
}

impl Matrix {
    /// A 4x4 matrix from its sixteen entries, row-major.
    fn from16(e: [Scalar; 16]) -> (r: Matrix)
        ensures
            r.wf(),
            r.rows == 4,
            r.cols == 4,
            forall|i: int, j: int|
                0 <= i < 4 && 0 <= j < 4 ==> #[trigger] r@[i][j] == e@[i * 4 + j]@,
    {
        let mut data: Vec<Scalar> = Vec::new();
        let mut k: usize = 0;
        while k < 16
            invariant
                data@.len() == k,
                k <= 16,
                forall|i: int| 0 <= i < k ==> #[trigger] data@[i] == e@[i],
            decreases 16 - k,
        {
            data.push(e[k]);
            k = k + 1;
        }
        let m = Matrix { rows: 4, cols: 4, data };
        proof {
            assert forall|i: int, j: int|
                0 <= i < 4 && 0 <= j < 4 implies #[trigger] m@[i][j] == e@[i * 4 + j]@ by {
                lemma_flat_index(i, j, 4, 4);
            }
        }
        m
    }

    /// The 4x4 identity matrix.
    pub fn identity4() -> (r: Matrix)
        ensures
            r.wf(),
            r.rows == 4,
            r.cols == 4,
            r@ == sidentity4(),
    {
        let s1 = Scalar::one();
        let s0 = Scalar::zero();
        let m = Matrix::from16(
            [s1, s0, s0, s0, s0, s1, s0, s0, s0, s0, s1, s0, s0, s0, s0, s1],
        );
        proof {
            assert(m@ =~~= sidentity4());
        }
        m
    }

    /// The translation matrix: identity with (x, y, z) in the last column.
    pub fn translation(x: Scalar, y: Scalar, z: Scalar) -> (r: Matrix)
        ensures
            r.wf(),
            r.rows == 4,
            r.cols == 4,
            r@ == stranslation(x@, y@, z@),
    {
        let s1 = Scalar::one();
        let s0 = Scalar::zero();
        let m = Matrix::from16([s1, s0, s0, x, s0, s1, s0, y, s0, s0, s1, z, s0, s0, s0, s1]);
        proof {
            assert(m@ =~~= stranslation(x@, y@, z@));
        }
        m
    }

    /// The scaling matrix: diagonal (x, y, z, 1).
    pub fn scaling(x: Scalar, y: Scalar, z: Scalar) -> (r: Matrix)
        ensures
            r.wf(),
            r.rows == 4,
            r.cols == 4,
            r@ == sscaling(x@, y@, z@),
    {
        let s1 = Scalar::one();
        let s0 = Scalar::zero();
        let m = Matrix::from16([x, s0, s0, s0, s0, y, s0, s0, s0, s0, z, s0, s0, s0, s0, s1]);
        proof {
            assert(m@ =~~= sscaling(x@, y@, z@));
        }
        m
    }

    /// The shearing matrix: identity with the six shear coefficients in the
    /// corresponding off-diagonal positions.
    pub fn shearing(xy: Scalar, xz: Scalar, yx: Scalar, yz: Scalar, zx: Scalar, zy: Scalar) -> (r:
        Matrix)
        ensures
            r.wf(),
            r.rows == 4,
            r.cols == 4,
            r@ == sshearing(xy@, xz@, yx@, yz@, zx@, zy@),
    {
        let s1 = Scalar::one();
        let s0 = Scalar::zero();
        let m = Matrix::from16(
            [s1, xy, xz, s0, yx, s1, yz, s0, zx, zy, s1, s0, s0, s0, s0, s1],
        );
        proof {
            assert(m@ =~~= sshearing(xy@, xz@, yx@, yz@, zx@, zy@));
        }
        m
    }

    /// Pre-multiplies by a translation: `translation(x, y, z) * self`.
    pub fn translate(self, x: Scalar, y: Scalar, z: Scalar) -> (r: Matrix)
        requires
            self.wf(),
            self.rows == 4,
            self.cols == 4,
            mmul_ok(stranslation(x@, y@, z@), self@, 4, 4, 4),
        ensures
            r.wf(),
            r.rows == 4,
            r.cols == 4,
            r@ == mmul(stranslation(x@, y@, z@), self@, 4, 4, 4),
    {
        match Matrix::translation(x, y, z).matmul(&self) {
            Ok(m) => m,
            Err(_) => vstd::pervasive::unreached(),
        }
    }

    /// Pre-multiplies by a scaling: `scaling(x, y, z) * self`.
    pub fn scale(self, x: Scalar, y: Scalar, z: Scalar) -> (r: Matrix)
        requires
            self.wf(),
            self.rows == 4,
            self.cols == 4,
            mmul_ok(sscaling(x@, y@, z@), self@, 4, 4, 4),
        ensures
            r.wf(),
            r.rows == 4,
            r.cols == 4,
            r@ == mmul(sscaling(x@, y@, z@), self@, 4, 4, 4),
    {
        match Matrix::scaling(x, y, z).matmul(&self) {
            Ok(m) => m,
            Err(_) => vstd::pervasive::unreached(),
        }
    }

    /// Pre-multiplies by a shearing: `shearing(..) * self`.
    pub fn shear(
        self,
        xy: Scalar,
        xz: Scalar,
        yx: Scalar,
        yz: Scalar,
        zx: Scalar,
        zy: Scalar,
    ) -> (r: Matrix)
        requires
            self.wf(),
            self.rows == 4,
            self.cols == 4,
            mmul_ok(sshearing(xy@, xz@, yx@, yz@, zx@, zy@), self@, 4, 4, 4),
        ensures
            r.wf(),
            r.rows == 4,
            r.cols == 4,
            r@ == mmul(sshearing(xy@, xz@, yx@, yz@, zx@, zy@), self@, 4, 4, 4),
    {
        match Matrix::shearing(xy, xz, yx, yz, zx, zy).matmul(&self) {
            Ok(m) => m,
            Err(_) => vstd::pervasive::unreached(),
        }
    }
}

/// The rotation grid about the x axis, right-handed, for an angle in
/// radians.
pub open spec fn srotation_x(r: int) -> Seq<Seq<int>> {
    seq![
        seq![SCALE as int, 0, 0, 0],
        seq![0, scos(r), -ssin(r), 0],
        seq![0, ssin(r), scos(r), 0],
        seq![0, 0, 0, SCALE as int],
    ]
}

/// The rotation grid about the y axis, right-handed.
pub open spec fn srotation_y(r: int) -> Seq<Seq<int>> {
    seq![
        seq![scos(r), 0, ssin(r), 0],
        seq![0, SCALE as int, 0, 0],
        seq![-ssin(r), 0, scos(r), 0],
        seq![0, 0, 0, SCALE as int],
    ]
}

/// The rotation grid about the z axis, right-handed.
pub open spec fn srotation_z(r: int) -> Seq<Seq<int>> {
    seq![
        seq![scos(r), -ssin(r), 0, 0],
        seq![ssin(r), scos(r), 0, 0],
        seq![0, 0, SCALE as int, 0],
        seq![0, 0, 0, SCALE as int],
    ]
}

impl Matrix {
    /// The rotation matrix about the x axis for an angle in radians.
    pub fn rotation_x(r: Scalar) -> (m: Matrix)
        ensures
            m.wf(),
            m.rows == 4,
            m.cols == 4,
            m@ == srotation_x(r@),
    {
        let (c, s) = crate::trig::cos_sin(r);
        let s1 = Scalar::one();
        let s0 = Scalar::zero();
        let ns = Scalar::new(-s.mantissa());
        let m = Matrix::from16([s1, s0, s0, s0, s0, c, ns, s0, s0, s, c, s0, s0, s0, s0, s1]);
        proof {
            assert(m@ =~~= srotation_x(r@));
        }
        m
    }

    /// The rotation matrix about the y axis for an angle in radians.
    pub fn rotation_y(r: Scalar) -> (m: Matrix)
        ensures
            m.wf(),
            m.rows == 4,
            m.cols == 4,
            m@ == srotation_y(r@),
    {
        let (c, s) = crate::trig::cos_sin(r);
        let s1 = Scalar::one();
        let s0 = Scalar::zero();
        let ns = Scalar::new(-s.mantissa());
        let m = Matrix::from16([c, s0, s, s0, s0, s1, s0, s0, ns, s0, c, s0, s0, s0, s0, s1]);
        proof {
            assert(m@ =~~= srotation_y(r@));
        }
        m
    }

    /// The rotation matrix about the z axis for an angle in radians.
    pub fn rotation_z(r: Scalar) -> (m: Matrix)
        ensures
            m.wf(),
            m.rows == 4,
            m.cols == 4,
            m@ == srotation_z(r@),
    {
        let (c, s) = crate::trig::cos_sin(r);
        let s1 = Scalar::one();
        let s0 = Scalar::zero();
        let ns = Scalar::new(-s.mantissa());
        let m = Matrix::from16([c, ns, s0, s0, s, c, s0, s0, s0, s0, s1, s0, s0, s0, s0, s1]);
        proof {
            assert(m@ =~~= srotation_z(r@));
        }
        m
    }

    /// Pre-multiplies by a rotation about x: `rotation_x(r) * self`.
    pub fn rotate_x(self, r: Scalar) -> (m: Matrix)
        requires
            self.wf(),
            self.rows == 4,
            self.cols == 4,
            mmul_ok(srotation_x(r@), self@, 4, 4, 4),
        ensures
            m.wf(),
            m.rows == 4,
            m.cols == 4,
            m@ == mmul(srotation_x(r@), self@, 4, 4, 4),
    {
        match Matrix::rotation_x(r).matmul(&self) {
            Ok(m) => m,
            Err(_) => vstd::pervasive::unreached(),
        }
    }

    /// Pre-multiplies by a rotation about y: `rotation_y(r) * self`.
    pub fn rotate_y(self, r: Scalar) -> (m: Matrix)
        requires
            self.wf(),
            self.rows == 4,
            self.cols == 4,
            mmul_ok(srotation_y(r@), self@, 4, 4, 4),
        ensures
            m.wf(),
            m.rows == 4,
            m.cols == 4,
            m@ == mmul(srotation_y(r@), self@, 4, 4, 4),
    {
        match Matrix::rotation_y(r).matmul(&self) {
            Ok(m) => m,
            Err(_) => vstd::pervasive::unreached(),
        }
    }

    /// Pre-multiplies by a rotation about z: `rotation_z(r) * self`.
    pub fn rotate_z(self, r: Scalar) -> (m: Matrix)
        requires
            self.wf(),
            self.rows == 4,
            self.cols == 4,
            mmul_ok(srotation_z(r@), self@, 4, 4, 4),
        ensures
            m.wf(),
            m.rows == 4,
            m.cols == 4,
            m@ == mmul(srotation_z(r@), self@, 4, 4, 4),
    {
        match Matrix::rotation_z(r).matmul(&self) {
            Ok(m) => m,
            Err(_) => vstd::pervasive::unreached(),
        }
    }
}

/// The 4x1 column grid of a homogeneous tuple with the given `w` mantissa.
pub open spec fn scolumn(t: Tuple, w: int) -> Seq<Seq<int>> {
    seq![seq![t.x@], seq![t.y@], seq![t.z@], seq![w]]
}

impl Matrix {
    /// The 4x1 column matrix (x, y, z, w).
    fn column4(x: Scalar, y: Scalar, z: Scalar, w: Scalar) -> (r: Matrix)
        ensures
            r.wf(),
            r.rows == 4,
            r.cols == 1,
            r@ == seq![seq![x@], seq![y@], seq![z@], seq![w@]],
    {
        let mut data: Vec<Scalar> = Vec::new();
        data.push(x);
        data.push(y);
        data.push(z);
        data.push(w);
        let m = Matrix { rows: 4, cols: 1, data };
        proof {
            assert(m@ =~~= seq![seq![x@], seq![y@], seq![z@], seq![w@]]);
        }
        m
    }
}

impl From<Point> for Matrix {
    /// The point as a 4x1 column with `w` = 1, ready for multiplication.
    fn from(t: Point) -> (r: Matrix)
        ensures
            r.wf(),
            r.rows == 4,
            r.cols == 1,
            r@ == scolumn(t.0, SCALE as int),
    {
        Matrix::column4(t.x(), t.y(), t.z(), Scalar::one())
    }
}

impl vstd::std_specs::convert::FromSpecImpl<Point> for Matrix {
    open spec fn obeys_from_spec() -> bool {
        false
    }

    open spec fn from_spec(t: Point) -> Matrix {
        vstd::pervasive::arbitrary()
    }
}

impl From<Vector> for Matrix {
    /// The vector as a 4x1 column with `w` = 0, ready for multiplication.
    fn from(t: Vector) -> (r: Matrix)
        ensures
            r.wf(),
            r.rows == 4,
            r.cols == 1,
            r@ == scolumn(t.0, 0),
    {
        Matrix::column4(t.x(), t.y(), t.z(), Scalar::zero())
    }
}

impl vstd::std_specs::convert::FromSpecImpl<Vector> for Matrix {
    open spec fn obeys_from_spec() -> bool {
        false
    }

    open spec fn from_spec(t: Vector) -> Matrix {
        vstd::pervasive::arbitrary()
    }
}

/// Two matrices agree in shape and, entry by entry, within tolerance.
pub open spec fn mrough(a: &Matrix, b: &Matrix) -> bool {
    &&& a.rows == b.rows
    &&& a.cols == b.cols
    &&& a.data@.len() == b.data@.len()
    &&& forall|k: int|
        0 <= k < a.data@.len() ==> sabs((#[trigger] a.data@[k])@ - b.data@[k]@) < EPSILON_M
}

impl PartialEq for Matrix {
    /// Shape equality plus entry-wise rough equality; matrices of different
    /// shapes are unequal, never an error.
    fn eq(&self, other: &Self) -> (r: bool) {
        if self.rows != other.rows || self.cols != other.cols {
            return false;
        }
        if self.data.len() != other.data.len() {
            return false;
        }
        let mut k: usize = 0;
        while k < self.data.len()
            invariant
                self.data@.len() == other.data@.len(),
                k <= self.data@.len(),
                forall|i: int|
                    0 <= i < k ==> sabs((#[trigger] self.data@[i])@ - other.data@[i]@) < EPSILON_M,
            decreases self.data@.len() - k,
        {
            if !self.data[k].roughly_equal(&other.data[k]) {
                return false;
            }
            k = k + 1;
        }
        true
    }
}

impl vstd::std_specs::cmp::PartialEqSpecImpl for Matrix {
    open spec fn obeys_eq_spec() -> bool {
        true
    }

    open spec fn eq_spec(&self, other: &Matrix) -> bool {
        mrough(self, other)
    }
}

impl RoughlyEqual for Matrix {
    /// The same relation as `==`: shape equality and entry-wise tolerance.
    open spec fn roughly_spec(&self, other: &Self) -> bool {
        mrough(self, other)
    }

    fn roughly_equal(&self, other: &Self) -> (r: bool) {
        self == other
    }
}

/// Cell `r` of a 4x4 grid applied to a homogeneous tuple: the dot product
/// of row `r` with (x, y, z, w), accumulated left to right.
pub open spec fn mapcell(g: Seq<Seq<int>>, t: Tuple, r: int) -> int {
    smul(g[r][0], t.x@) + smul(g[r][1], t.y@) + smul(g[r][2], t.z@) + smul(g[r][3], t.w@)
}

/// A 4x4 grid applied to a homogeneous tuple.
pub open spec fn mapply(g: Seq<Seq<int>>, t: Tuple) -> Tuple {
    tup(mapcell(g, t, 0), mapcell(g, t, 1), mapcell(g, t, 2), mapcell(g, t, 3))
}

/// Every product and partial sum of one application cell fits.
pub open spec fn mapcell_ok(g: Seq<Seq<int>>, t: Tuple, r: int) -> bool {
    &&& fits_i64(smul(g[r][0], t.x@))
    &&& fits_i64(smul(g[r][1], t.y@))
    &&& fits_i64(smul(g[r][2], t.z@))
    &&& fits_i64(smul(g[r][3], t.w@))
    &&& fits_i64(smul(g[r][0], t.x@) + smul(g[r][1], t.y@))
    &&& fits_i64(smul(g[r][0], t.x@) + smul(g[r][1], t.y@) + smul(g[r][2], t.z@))
    &&& fits_i64(mapcell(g, t, r))
}

/// Every cell of the application fits.
pub open spec fn mapply_ok(g: Seq<Seq<int>>, t: Tuple) -> bool {
    &&& mapcell_ok(g, t, 0)
    &&& mapcell_ok(g, t, 1)
    &&& mapcell_ok(g, t, 2)
    &&& mapcell_ok(g, t, 3)
}

impl Matrix {
    /// Row `row` of this 4x4 matrix dotted with the tuple (x, y, z, w).
    fn apply_row(&self, row: usize, t: &Tuple) -> (r: Scalar)
        requires
            self.wf(),
            self.rows == 4,
            self.cols == 4,
            row < 4,
            mapcell_ok(self@, *t, row as int),
        ensures
            r@ == mapcell(self@, *t, row as int),
    {
        self.value_at(row, 0) * t.x + self.value_at(row, 1) * t.y + self.value_at(row, 2) * t.z
            + self.value_at(row, 3) * t.w
    }

    /// This 4x4 matrix applied to a homogeneous tuple.
    fn apply(&self, t: &Tuple) -> (r: Tuple)
        requires
            self.wf(),
            self.rows == 4,
            self.cols == 4,
            mapply_ok(self@, *t),
        ensures
            r == mapply(self@, *t),
    {
        Tuple::new(
            self.apply_row(0, t),
            self.apply_row(1, t),
            self.apply_row(2, t),
            self.apply_row(3, t),
        )
    }
}

impl core::ops::Mul<Point> for Matrix {
    type Output = Point;

    /// The transformed point: each coordinate is the dot product of a
    /// matrix row with the point's homogeneous tuple.
    fn mul(self, t: Point) -> (r: Point) {
        Point(self.apply(&t.0))
    }
}

impl vstd::std_specs::ops::MulSpecImpl<Point> for Matrix {
    open spec fn obeys_mul_spec() -> bool {
        true
    }

    open spec fn mul_req(self, t: Point) -> bool {
        &&& self.wf()
        &&& self.rows == 4
        &&& self.cols == 4
        &&& mapply_ok(self@, t.0)
    }

    open spec fn mul_spec(self, t: Point) -> Point {
        Point(mapply(self@, t.0))
    }
}

impl core::ops::Mul<Vector> for Matrix {
    type Output = Vector;

    /// The transformed vector: each component is the dot product of a
    /// matrix row with the vector's homogeneous tuple.
    fn mul(self, t: Vector) -> (r: Vector) {
        Vector(self.apply(&t.0))
    }
}

impl vstd::std_specs::ops::MulSpecImpl<Vector> for Matrix {
    open spec fn obeys_mul_spec() -> bool {
        true
    }

    open spec fn mul_req(self, t: Vector) -> bool {
        &&& self.wf()
        &&& self.rows == 4
        &&& self.cols == 4
        &&& mapply_ok(self@, t.0)
    }

    open spec fn mul_spec(self, t: Vector) -> Vector {
        Vector(mapply(self@, t.0))
    }
}

impl core::ops::Mul for Matrix {
    type Output = Matrix;

    /// The matrix product. The precondition (`mul_req` below) demands
    /// compatible inner dimensions, so this operator is total; the result is
    /// pinned by the contract of `matmul`, which it forwards to.
    fn mul(self, rhs: Matrix) -> (r: Matrix)
        ensures
            r@ == mmul(self@, rhs@, self.rows as int, self.cols as int, rhs.cols as int),
            r.wf(),
            r.rows == self.rows,
            r.cols == rhs.cols,
    {
        match self.matmul(&rhs) {
            Ok(m) => m,
            Err(_) => vstd::pervasive::unreached(),
        }
    }
}

impl vstd::std_specs::ops::MulSpecImpl for Matrix {
    open spec fn obeys_mul_spec() -> bool {
        false
    }

    open spec fn mul_req(self, rhs: Matrix) -> bool {
        &&& self.wf()
        &&& rhs.wf()
        &&& self.cols == rhs.rows
        &&& mmul_ok(self@, rhs@, self.rows as int, self.cols as int, rhs.cols as int)
        &&& (self.rows as int) * (rhs.cols as int) <= usize::MAX
    }

    open spec fn mul_spec(self, rhs: Matrix) -> Matrix {
        vstd::pervasive::arbitrary()
    }
}

} // verus!
