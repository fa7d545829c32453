//! Solution of dense square linear systems by Gaussian elimination with
//! partial pivoting.

use crate::math::error::MathError;
use crate::matrix::{rectangular, rows_of, Matrix};
use crate::scalar::Scalar;
use vstd::prelude::*;

verus! {

/// Bit pattern of `1e-14`, the magnitude under which a pivot counts as zero.
pub const PIVOT_THRESHOLD_BITS: u64 = 0x3d06_849b_86a1_2b9b;

/// The magnitude under which a pivot counts as zero.
pub open spec fn pivot_threshold() -> Scalar {
    Scalar { bits: PIVOT_THRESHOLD_BITS }
}

/// The matrix `[a | b]`: each row of `a` followed by the matching entry of `b`.
pub open spec fn augmented(a: Seq<Seq<Scalar>>, b: Seq<Scalar>) -> Seq<Seq<Scalar>> {
    Seq::new(a.len(), |i: int| a[i].push(b[i]))
}

/// The row chosen as pivot for column `col` among rows `col..upto`: the
/// first one whose entry in that column no other exceeds in magnitude.
pub open spec fn pivot_row(m: Seq<Seq<Scalar>>, col: int, upto: int) -> int
    decreases upto - col,
{
    if upto <= col + 1 {
        col
    } else {
        let best = pivot_row(m, col, upto - 1);
        if m[upto - 1][col].spec_abs().spec_gt(m[best][col].spec_abs()) {
            upto - 1
        } else {
            best
        }
    }
}

/// `m` with rows `i` and `j` exchanged.
pub open spec fn swapped(m: Seq<Seq<Scalar>>, i: int, j: int) -> Seq<Seq<Scalar>> {
    Seq::new(
        m.len(),
        |r: int|
            if r == i {
                m[j]
            } else if r == j {
                m[i]
            } else {
                m[r]
            },
    )
}

/// `row` minus the multiple of `pivot` that cancels its entry in column
/// `col`. Entries left of `col` are kept as they are.
pub open spec fn reduced_row(row: Seq<Scalar>, pivot: Seq<Scalar>, col: int) -> Seq<Scalar> {
    let factor = row[col].spec_div(pivot[col]);
    Seq::new(
        row.len(),
        |j: int|
            if j < col {
                row[j]
            } else {
                row[j].spec_sub(factor.spec_mul(pivot[j]))
            },
    )
}

/// `m` with column `col` eliminated from every row below row `col`.
pub open spec fn eliminated(m: Seq<Seq<Scalar>>, col: int) -> Seq<Seq<Scalar>> {
    Seq::new(
        m.len(),
        |r: int|
            if r <= col {
                m[r]
            } else {
                reduced_row(m[r], m[col], col)
            },
    )
}

/// Gaussian elimination with partial pivoting from column `col` on: the
/// echelon form, or nothing where a pivot falls under the threshold.
pub open spec fn forward(m: Seq<Seq<Scalar>>, col: int) -> Option<Seq<Seq<Scalar>>>
    decreases m.len() - col,
{
    if col >= m.len() || col < 0 {
        Some(m)
    } else {
        let p = pivot_row(m, col, m.len() as int);
        if m[p][col].spec_abs().spec_lt(pivot_threshold()) {
            None
        } else {
            forward(eliminated(swapped(m, col, p), col), col + 1)
        }
    }
}

/// The right-hand side of `row` minus, one after the other, the products of
/// its entries `i + 1 .. upto` with the matching unknowns in `x`.
pub open spec fn remainder(row: Seq<Scalar>, x: Seq<Scalar>, i: int, upto: int) -> Scalar
    decreases upto - i,
{
    if upto <= i + 1 {
        row.last()
    } else {
        remainder(row, x, i, upto - 1).spec_sub(row[upto - 1].spec_mul(x[upto - 1]))
    }
}

/// Back substitution on an echelon form: the unknowns `i..` solved from the
/// last one up, the others zero.
pub open spec fn back_substituted(m: Seq<Seq<Scalar>>, i: int) -> Seq<Scalar>
    decreases m.len() - i,
{
    if i >= m.len() || i < 0 {
        Seq::new(m.len(), |j: int| Scalar::spec_zero())
    } else {
        let later = back_substituted(m, i + 1);
        later.update(i, remainder(m[i], later, i, m.len() as int).spec_div(m[i][i]))
    }
}

/// The solution of `a x = b` by elimination and back substitution, or nothing
/// where `a` is singular to working precision.
pub open spec fn solution(a: Seq<Seq<Scalar>>, b: Seq<Scalar>) -> Option<Seq<Scalar>> {
    match forward(augmented(a, b), 0) {
        Some(m) => Some(back_substituted(m, 0)),
        None => None,
    }
}

/// The error that the shape of a linear system gives, if any.
pub open spec fn linear_system_error(rows: nat, cols: nat, rhs: nat) -> Option<MathError> {
    if rows == 0 {
        Some(MathError::EmptyData)
    } else if cols != rows {
        Some(MathError::DimensionMismatch { expected: rows as usize, actual: cols as usize })
    } else if rhs != rows {
        Some(MathError::DimensionMismatch { expected: rows as usize, actual: rhs as usize })
    } else {
        None
    }
}

/// What solving `a x = b` gives, `a` having `cols` columns: the error of the
/// shape, else the solution, else the report that `a` is singular.
pub open spec fn solve_outcome(a: Seq<Seq<Scalar>>, cols: nat, b: Seq<Scalar>) -> Result<
    Seq<Scalar>,
    MathError,
> {
    match linear_system_error(a.len(), cols, b.len()) {
        Some(e) => Err(e),
        None => match solution(a, b) {
            Some(x) => Ok(x),
            None => Err(MathError::SingularMatrix),
        },
    }
}

/// Whether `m` has `n` rows of `n + 1` entries each.
pub open spec fn is_augmented(m: Seq<Seq<Scalar>>, n: nat) -> bool {
    m.len() == n && rectangular(m, n + 1)
}

/// Every row vector of an augmented matrix has one entry more than there are rows.
proof fn lemma_row_lengths(v: Seq<Vec<Scalar>>, n: nat)
    requires
        is_augmented(rows_of(v), n),
    ensures
        v.len() == n,
        forall|r: int| 0 <= r < n ==> (#[trigger] v[r])@.len() == n + 1,
{
    assert forall|r: int| 0 <= r < n implies (#[trigger] v[r])@.len() == n + 1 by {
        assert(rows_of(v)[r] == v[r]@);
    }
}

/// The pivot row lies among the rows searched.
proof fn lemma_pivot_row_in_range(m: Seq<Seq<Scalar>>, col: int, upto: int)
    requires
        col < upto,
    ensures
        col <= pivot_row(m, col, upto) < upto,
    decreases upto - col,
{
    if upto > col + 1 {
        lemma_pivot_row_in_range(m, col, upto - 1);
    }
}

/// Partial pivoting picks an entry of largest magnitude: no row searched
/// holds an entry in the column that exceeds the pivot's in magnitude, and
/// every row before the pivot row holds a strictly smaller one, or a NaN.
pub proof fn lemma_pivot_row_is_largest(m: Seq<Seq<Scalar>>, col: int, upto: int, r: int)
    requires
        col <= r < upto,
    ensures
        !m[r][col].spec_abs().spec_gt(m[pivot_row(m, col, upto)][col].spec_abs()),
        r < pivot_row(m, col, upto) && !m[r][col].spec_is_nan() ==> m[r][col].spec_abs().spec_lt(
            m[pivot_row(m, col, upto)][col].spec_abs(),
        ),
    decreases upto - col,
{
    if upto > col + 1 {
        lemma_pivot_row_in_range(m, col, upto - 1);
        if r < upto - 1 {
            lemma_pivot_row_is_largest(m, col, upto - 1, r);
        }
    }
}

/// Elimination keeps the shape of an augmented matrix.
proof fn lemma_step_keeps_shape(m: Seq<Seq<Scalar>>, n: nat, col: int, p: int)
    requires
        is_augmented(m, n),
        0 <= col < n,
        0 <= p < n,
    ensures
        is_augmented(eliminated(swapped(m, col, p), col), n),
{
    let s = swapped(m, col, p);
    let e = eliminated(s, col);
    assert forall|i: int| 0 <= i < e.len() implies (#[trigger] e[i]).len() == n + 1 by {
        assert(s[i].len() == n + 1);
    }
}

/// Back substitution gives one unknown per row.
proof fn lemma_back_substituted_len(m: Seq<Seq<Scalar>>, i: int)
    ensures
        back_substituted(m, i).len() == m.len(),
    decreases m.len() - i,
{
    if 0 <= i < m.len() {
        lemma_back_substituted_len(m, i + 1);
    }
}

/// A solution has as many entries as the system has rows.
pub proof fn lemma_solution_len(a: Seq<Seq<Scalar>>, b: Seq<Scalar>)
    ensures
        solution(a, b) matches Some(x) ==> x.len() == a.len(),
{
    let m0 = augmented(a, b);
    match forward(m0, 0) {
        Some(m) => {
            lemma_forward_len(m0, 0);
            lemma_back_substituted_len(m, 0);
        },
        None => {},
    }
}

/// Forward elimination keeps the number of rows.
proof fn lemma_forward_len(m: Seq<Seq<Scalar>>, col: int)
    ensures
        forward(m, col) matches Some(e) ==> e.len() == m.len(),
    decreases m.len() - col,
{
    if 0 <= col < m.len() {
        let p = pivot_row(m, col, m.len() as int);
        if !m[p][col].spec_abs().spec_lt(pivot_threshold()) {
            let next = eliminated(swapped(m, col, p), col);
            assert(next.len() == m.len());
            lemma_forward_len(next, col + 1);
        }
    }
}

/// Copies `a` and `b` into the augmented matrix `[a | b]`.
fn build_augmented(a: &Matrix, b: &Vec<Scalar>) -> (aug: Vec<Vec<Scalar>>)
    requires
        a.spec_ncols() == a@.len(),
        b@.len() == a@.len(),
    ensures
        rows_of(aug@) == augmented(a@, b@),
        is_augmented(rows_of(aug@), a@.len()),
{
    let n: usize = a.nrows();
    let cols: usize = a.ncols();
    let mut aug: Vec<Vec<Scalar>> = Vec::new();
    let mut i: usize = 0;
    while i < n
        invariant
            i <= n,
            n == a@.len(),
            cols == n,
            cols == a.spec_ncols(),
            b@.len() == n,
            rectangular(a@, n as nat),
            aug@.len() == i,
            forall|r: int| 0 <= r < i ==> (#[trigger] aug@[r])@ == a@[r].push(b@[r]),
        decreases n - i,
    {
        let mut row: Vec<Scalar> = Vec::new();
        let mut j: usize = 0;
        while j < cols
            invariant
                j <= cols,
                i < n,
                n == a@.len(),
                cols == a.spec_ncols(),
                rectangular(a@, n as nat),
                cols == n,
                row@.len() == j,
                forall|c: int| 0 <= c < j ==> (#[trigger] row@[c]) == a@[i as int][c],
            decreases cols - j,
        {
            row.push(a.get(i, j));
            j += 1;
        }
        row.push(b[i]);
        assert(row@ =~= a@[i as int].push(b@[i as int]));
        aug.push(row);
        i += 1;
    }
    assert(rows_of(aug@) =~= augmented(a@, b@));
    aug
}

/// Finds the pivot row for column `col` and the magnitude of its entry.
fn find_pivot(aug: &Vec<Vec<Scalar>>, col: usize) -> (found: (usize, Scalar))
    requires
        col < aug@.len(),
        is_augmented(rows_of(aug@), aug@.len() as nat),
    ensures
        found.0 == pivot_row(rows_of(aug@), col as int, aug@.len() as int),
        col <= found.0 < aug@.len(),
        found.1 == rows_of(aug@)[found.0 as int][col as int].spec_abs(),
{
    let n: usize = aug.len();
    let ghost m = rows_of(aug@);
    proof {
        lemma_row_lengths(aug@, n as nat);
    }
    let mut max_row: usize = col;
    let mut max_val: Scalar = aug[col][col].abs();
    let mut row: usize = col + 1;
    while row < n
        invariant
            n == aug@.len(),
            m == rows_of(aug@),
            is_augmented(m, n as nat),
            forall|r: int| 0 <= r < n ==> (#[trigger] aug@[r])@.len() == n + 1,
            col < row <= n,
            col <= max_row < row,
            max_row == pivot_row(m, col as int, row as int),
            max_val == m[max_row as int][col as int].spec_abs(),
        decreases n - row,
    {
        let candidate: Scalar = aug[row][col].abs();
        if candidate.gt(max_val) {
            max_val = candidate;
            max_row = row;
        }
        row += 1;
    }
    (max_row, max_val)
}

/// Exchanges rows `i` and `j`.
fn swap_rows(aug: &mut Vec<Vec<Scalar>>, i: usize, j: usize)
    requires
        i < old(aug)@.len(),
        j < old(aug)@.len(),
    ensures
        rows_of(final(aug)@) == swapped(rows_of(old(aug)@), i as int, j as int),
{
    if i != j {
        let mut first: Vec<Scalar> = Vec::new();
        let mut second: Vec<Scalar> = Vec::new();
        std::mem::swap(&mut aug[i], &mut first);
        std::mem::swap(&mut aug[j], &mut second);
        aug[i] = second;
        aug[j] = first;
    }
    assert(rows_of(aug@) =~= swapped(rows_of(old(aug)@), i as int, j as int));
}

/// Eliminates column `col` from every row below row `col`.
fn eliminate_column(aug: &mut Vec<Vec<Scalar>>, col: usize)
    requires
        col < old(aug)@.len(),
        is_augmented(rows_of(old(aug)@), old(aug)@.len() as nat),
    ensures
        rows_of(final(aug)@) == eliminated(rows_of(old(aug)@), col as int),
{
    let n: usize = aug.len();
    let ghost before = rows_of(aug@);
    let mut row: usize = col + 1;
    while row < n
        invariant
            n == aug@.len(),
            before.len() == n,
            is_augmented(before, n as nat),
            is_augmented(rows_of(aug@), n as nat),
            col < row <= n,
            forall|r: int|
                0 <= r < row ==> (#[trigger] rows_of(aug@)[r]) == eliminated(before, col as int)[r],
            forall|r: int| row <= r < n ==> (#[trigger] rows_of(aug@)[r]) == before[r],
        decreases n - row,
    {
        let ghost mid = rows_of(aug@);
        let ghost target = reduced_row(before[row as int], before[col as int], col as int);
        assert(mid[row as int] == before[row as int]);
        assert(mid[col as int] == before[col as int]);
        proof {
            lemma_row_lengths(aug@, n as nat);
        }
        let factor: Scalar = aug[row][col].div(aug[col][col]);
        let width: usize = aug[row].len();
        let mut j: usize = col;
        while j < width
            invariant
                n == aug@.len(),
                col < row < n,
                width == n + 1,
                col <= j <= width,
                is_augmented(before, n as nat),
                is_augmented(rows_of(aug@), n as nat),
                mid.len() == n,
                target == reduced_row(before[row as int], before[col as int], col as int),
                factor == before[row as int][col as int].spec_div(before[col as int][col as int]),
                forall|r: int| 0 <= r < n && r != row ==> (#[trigger] rows_of(aug@)[r]) == mid[r],
                mid[col as int] == before[col as int],
                forall|c: int| 0 <= c < j ==> (#[trigger] rows_of(aug@)[row as int][c]) == target[c],
                forall|c: int|
                    j <= c < width ==> (#[trigger] rows_of(aug@)[row as int][c])
                        == before[row as int][c],
            decreases width - j,
        {
            let ghost prior = rows_of(aug@);
            assert(prior[col as int] == before[col as int]);
            proof {
                lemma_row_lengths(aug@, n as nat);
            }
            let value: Scalar = aug[row][j].sub(factor.mul(aug[col][j]));
            aug[row][j] = value;
            assert(rows_of(aug@) =~= prior.update(
                row as int,
                prior[row as int].update(j as int, value),
            ));
            j += 1;
        }
        assert(rows_of(aug@)[row as int] =~= target);
        row += 1;
    }
    assert(rows_of(aug@) =~= eliminated(before, col as int));
}

/// Solves the echelon system from the last unknown up.
fn back_substitute(aug: &Vec<Vec<Scalar>>) -> (x: Vec<Scalar>)
    requires
        is_augmented(rows_of(aug@), aug@.len() as nat),
    ensures
        x@ == back_substituted(rows_of(aug@), 0),
{
    let n: usize = aug.len();
    let ghost m = rows_of(aug@);
    let mut x: Vec<Scalar> = Vec::new();
    let mut k: usize = 0;
    while k < n
        invariant
            k <= n,
            x@.len() == k,
            forall|j: int| 0 <= j < k ==> (#[trigger] x@[j]) == Scalar::spec_zero(),
        decreases n - k,
    {
        x.push(Scalar::zero());
        k += 1;
    }
    assert(x@ =~= back_substituted(m, n as int));
    let mut i: usize = n;
    while i > 0
        invariant
            n == aug@.len(),
            m == rows_of(aug@),
            is_augmented(m, n as nat),
            i <= n,
            x@.len() == n,
            x@ == back_substituted(m, i as int),
        decreases i,
    {
        i -= 1;
        let ghost later = x@;
        proof {
            lemma_row_lengths(aug@, n as nat);
        }
        let mut sum: Scalar = aug[i][n];
        assert(sum == m[i as int].last());
        let mut j: usize = i + 1;
        while j < n
            invariant
                n == aug@.len(),
                m == rows_of(aug@),
                is_augmented(m, n as nat),
                i < j <= n,
                x@ == later,
                later.len() == n,
                forall|r: int| 0 <= r < n ==> (#[trigger] aug@[r])@.len() == n + 1,
                sum == remainder(m[i as int], later, i as int, j as int),
            decreases n - j,
        {
            sum = sum.sub(aug[i][j].mul(x[j]));
            j += 1;
        }
        let solved: Scalar = sum.div(aug[i][i]);
        x[i] = solved;
    }
    x
}

/// Solves the square system `a x = b` by Gaussian elimination with partial
/// pivoting. Fails on an empty system, on a shape that is not square or does
/// not match `b`, and on a pivot whose magnitude is under `1e-14`.
pub fn solve_linear_system(a: &Matrix, b: &Vec<Scalar>) -> (r: Result<Vec<Scalar>, MathError>)
    ensures
        match r {
            Ok(x) => solve_outcome(a@, a.spec_ncols(), b@) == Ok::<Seq<Scalar>, MathError>(x@),
            Err(e) => solve_outcome(a@, a.spec_ncols(), b@) == Err::<Seq<Scalar>, MathError>(e),
        },
        r matches Ok(x) ==> x@.len() == a@.len(),
{
    let n: usize = a.nrows();
    if n == 0 {
        return Err(MathError::EmptyData);
    }
    let cols: usize = a.ncols();
    if cols != n {
        return Err(MathError::DimensionMismatch { expected: n, actual: cols });
    }
    if b.len() != n {
        return Err(MathError::DimensionMismatch { expected: n, actual: b.len() });
    }
    let mut aug: Vec<Vec<Scalar>> = build_augmented(a, b);
    let ghost start = rows_of(aug@);
    let mut col: usize = 0;
    while col < n
        invariant
            col <= n,
            n == aug@.len(),
            n == a@.len(),
            linear_system_error(a@.len(), a.spec_ncols(), b@.len()) is None,
            start == augmented(a@, b@),
            is_augmented(rows_of(aug@), n as nat),
            forward(start, 0) == forward(rows_of(aug@), col as int),
        decreases n - col,
    {
        let ghost m = rows_of(aug@);
        let found = find_pivot(&aug, col);
        let max_row: usize = found.0;
        let max_val: Scalar = found.1;
        if max_val.lt(Scalar::from_bits(PIVOT_THRESHOLD_BITS)) {
            assert(forward(m, col as int) is None);
            return Err(MathError::SingularMatrix);
        }
        swap_rows(&mut aug, col, max_row);
        proof {
            lemma_step_keeps_shape(m, n as nat, col as int, max_row as int);
            let s = swapped(m, col as int, max_row as int);
            assert forall|i: int| 0 <= i < s.len() implies (#[trigger] s[i]).len() == n + 1 by {}
        }
        eliminate_column(&mut aug, col);
        col += 1;
    }
    let x: Vec<Scalar> = back_substitute(&aug);
    proof {
        lemma_solution_len(a@, b@);
    }
    Ok(x)
}

} // verus!
