//! Dense row-major matrices of scalars.

use crate::scalar::Scalar;
use vstd::prelude::*;

verus! {

/// Whether every row of `m` has exactly `cols` entries.
pub open spec fn rectangular(m: Seq<Seq<Scalar>>, cols: nat) -> bool {
    forall|i: int| 0 <= i < m.len() ==> (#[trigger] m[i]).len() == cols
}

/// The rows of a vector of vectors, each as a sequence.
pub open spec fn rows_of(v: Seq<Vec<Scalar>>) -> Seq<Seq<Scalar>> {
    Seq::new(v.len(), |i: int| v[i]@)
}

/// Column `j` of `m`, top to bottom.
pub open spec fn column(m: Seq<Seq<Scalar>>, j: int) -> Seq<Scalar> {
    Seq::new(m.len(), |i: int| m[i][j])
}

/// A matrix with a fixed number of columns in every row. A matrix may have
/// rows and no columns, or columns and no rows.
#[derive(Debug)]
pub struct Matrix {
    rows: Vec<Vec<Scalar>>,
    cols: usize,
}

impl View for Matrix {
    type V = Seq<Seq<Scalar>>;

    closed spec fn view(&self) -> Seq<Seq<Scalar>> {
        rows_of(self.rows@)
    }
}

impl Clone for Matrix {
    fn clone(&self) -> (m: Matrix)
        ensures
            m@ == self@,
            m.spec_ncols() == self.spec_ncols(),
    {
        proof {
            use_type_invariant(self);
        }
        let mut out: Vec<Vec<Scalar>> = Vec::new();
        let mut i: usize = 0;
        while i < self.rows.len()
            invariant
                i <= self.rows@.len(),
                out@.len() == i,
                forall|r: int| 0 <= r < i ==> (#[trigger] out@[r])@ == self.rows@[r]@,
            decreases self.rows@.len() - i,
        {
            let source: &Vec<Scalar> = &self.rows[i];
            let mut row: Vec<Scalar> = Vec::new();
            let mut j: usize = 0;
            while j < source.len()
                invariant
                    j <= source@.len(),
                    row@ == source@.take(j as int),
                decreases source@.len() - j,
            {
                row.push(source[j]);
                assert(source@.take(j + 1) =~= source@.take(j as int).push(source@[j as int]));
                j += 1;
            }
            assert(row@ =~= source@);
            out.push(row);
            i += 1;
        }
        assert(rows_of(out@) =~= rows_of(self.rows@));
        Matrix { rows: out, cols: self.cols }
    }
}

impl Matrix {
    #[verifier::type_invariant]
    spec fn well_formed(self) -> bool {
        forall|i: int| 0 <= i < self.rows@.len() ==> (#[trigger] self.rows@[i])@.len() == self.cols
    }

    /// The number of columns, also where there is no row to count them in.
    pub closed spec fn spec_ncols(&self) -> nat {
        self.cols as nat
    }

    /// A matrix of `rows` by `cols` zeros.
    pub fn zeros(rows: usize, cols: usize) -> (m: Matrix)
        ensures
            m@.len() == rows,
            m.spec_ncols() == cols,
            rectangular(m@, cols as nat),
            forall|i: int, j: int| 0 <= i < rows && 0 <= j < cols ==> (#[trigger] m@[i][j]) == Scalar::zero(),
    {
        let mut out: Vec<Vec<Scalar>> = Vec::new();
        let mut i: usize = 0;
        while i < rows
            invariant
                i <= rows,
                out@.len() == i,
                forall|r: int| 0 <= r < i ==> (#[trigger] out@[r])@.len() == cols,
                forall|r: int, j: int|
                    0 <= r < i && 0 <= j < cols ==> (#[trigger] out@[r]@[j]) == Scalar::zero(),
            decreases rows - i,
        {
            let mut row: Vec<Scalar> = Vec::new();
            let mut j: usize = 0;
            while j < cols
                invariant
                    j <= cols,
                    row@.len() == j,
                    forall|c: int| 0 <= c < j ==> (#[trigger] row@[c]) == Scalar::zero(),
                decreases cols - j,
            {
                row.push(Scalar::zero());
                j += 1;
            }
            out.push(row);
            i += 1;
        }
        Matrix { rows: out, cols }
    }

    /// The matrix whose rows are the given vectors, in order. The first row
    /// fixes the number of columns; with no row there is no column.
    pub fn from_rows(rows: Vec<Vec<Scalar>>) -> (m: Option<Matrix>)
        ensures
            m is Some <==> (forall|i: int|
                0 <= i < rows@.len() ==> (#[trigger] rows@[i])@.len() == rows@[0]@.len()),
            m matches Some(mat) ==> {
                &&& mat@ == rows_of(rows@)
                &&& mat.spec_ncols() == (if rows@.len() == 0 {
                    0
                } else {
                    rows@[0]@.len()
                })
            },
    {
        let cols: usize = if rows.len() == 0 {
            0
        } else {
            rows[0].len()
        };
        let mut i: usize = 0;
        while i < rows.len()
            invariant
                i <= rows@.len(),
                rows@.len() > 0 ==> cols == rows@[0]@.len(),
                forall|r: int| 0 <= r < i ==> (#[trigger] rows@[r])@.len() == cols,
            decreases rows@.len() - i,
        {
            if rows[i].len() != cols {
                return None;
            }
            i += 1;
        }
        Some(Matrix { rows, cols })
    }

    /// The matrix of `rows` by `cols` entries that `data` lists row by row,
    /// or nothing where `data` does not hold exactly `rows * cols` entries.
    pub fn from_shape_vec(rows: usize, cols: usize, data: Vec<Scalar>) -> (m: Option<Matrix>)
        ensures
            m is Some <==> data@.len() == rows * cols,
            m matches Some(mat) ==> {
                &&& mat@.len() == rows
                &&& mat.spec_ncols() == cols
                &&& rectangular(mat@, cols as nat)
                &&& forall|i: int, j: int|
                    0 <= i < rows && 0 <= j < cols ==> (#[trigger] mat@[i][j]) == data@[i * cols + j]
            },
    {
        let len: usize = data.len();
        let total: usize = match rows.checked_mul(cols) {
            Some(t) => t,
            None => {
                return None;
            },
        };
        if len != total {
            return None;
        }
        let mut out: Vec<Vec<Scalar>> = Vec::new();
        let mut i: usize = 0;
        let mut at: usize = 0;
        while i < rows
            invariant
                i <= rows,
                at == i * cols,
                data@.len() == rows * cols,
                data@.len() <= usize::MAX,
                out@.len() == i,
                forall|r: int| 0 <= r < i ==> (#[trigger] out@[r])@.len() == cols,
                forall|r: int, j: int|
                    0 <= r < i && 0 <= j < cols ==> (#[trigger] out@[r]@[j]) == data@[r * cols + j],
            decreases rows - i,
        {
            proof {
                assert((i + 1) * cols <= rows * cols) by (nonlinear_arith)
                    requires
                        i + 1 <= rows,
                ;
                assert((i + 1) * cols == i * cols + cols) by (nonlinear_arith);
            }
            let mut row: Vec<Scalar> = Vec::new();
            let mut j: usize = 0;
            while j < cols
                invariant
                    j <= cols,
                    at == i * cols,
                    at + cols <= data@.len(),
                    data@.len() <= usize::MAX,
                    row@.len() == j,
                    forall|c: int| 0 <= c < j ==> (#[trigger] row@[c]) == data@[i * cols + c],
                decreases cols - j,
            {
                row.push(data[at + j]);
                j += 1;
            }
            out.push(row);
            at += cols;
            i += 1;
        }
        Some(Matrix { rows: out, cols })
    }

    /// The number of rows.
    pub fn nrows(&self) -> (n: usize)
        ensures
            n == self@.len(),
    {
        self.rows.len()
    }

    /// The number of columns. Every row has that many entries.
    pub fn ncols(&self) -> (n: usize)
        ensures
            n == self.spec_ncols(),
            rectangular(self@, n as nat),
    {
        proof {
            use_type_invariant(self);
        }
        self.cols
    }

    /// The entry in row `i` and column `j`.
    pub fn get(&self, i: usize, j: usize) -> (x: Scalar)
        requires
            i < self@.len(),
            j < self.spec_ncols(),
        ensures
            x == self@[i as int][j as int],
    {
        proof {
            use_type_invariant(self);
        }
        self.rows[i][j]
    }

    /// Row `i`.
    pub fn row(&self, i: usize) -> (r: &Vec<Scalar>)
        requires
            i < self@.len(),
        ensures
            r@ == self@[i as int],
            r@.len() == self.spec_ncols(),
    {
        proof {
            use_type_invariant(self);
        }
        &self.rows[i]
    }

    /// Replaces the entry in row `i` and column `j`.
    pub fn set(&mut self, i: usize, j: usize, x: Scalar)
        requires
            i < old(self)@.len(),
            j < old(self).spec_ncols(),
        ensures
            final(self)@ == old(self)@.update(i as int, old(self)@[i as int].update(j as int, x)),
            final(self).spec_ncols() == old(self).spec_ncols(),
    {
        proof {
            use_type_invariant(&*self);
        }
        let ghost before = self.rows@;
        let mut rows: Vec<Vec<Scalar>> = Vec::new();
        std::mem::swap(&mut self.rows, &mut rows);
        rows[i][j] = x;
        self.rows = rows;
        assert(rows_of(self.rows@) =~= rows_of(before).update(
            i as int,
            rows_of(before)[i as int].update(j as int, x),
        ));
    }
}

} // verus!
