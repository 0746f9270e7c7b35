//! Laws of the matrix algebra, proved over the model.
//!
//! Laws of shape hold for every element type. Laws of value hold as far as
//! the element type's own sum and product have the matching property on the
//! cells at hand; each law says which property it leans on.
use crate::grid::Grid;
use crate::index::{lemma_offset, lemma_position};
use crate::scalar::{minus_one, Scalar};
use crate::semiring::{
    lemma_series_exchange, lemma_series_of_equal_terms, lemma_series_times, lemma_times_series,
    semiring, series,
};
use vstd::prelude::*;
use vstd::std_specs::ops::{AddSpec, MulSpec};

verus! {

/// The transpose holds at (`row`, `col`) what the matrix holds at
/// (`col`, `row`).
pub proof fn lemma_transpose_at<T>(m: Grid<T>, row: int, col: int)
    requires
        0 <= row < m.cols,
        0 <= col < m.rows,
    ensures
        m.transpose().at(row, col) == m.at(col, row),
{
    lemma_offset(row, col, m.cols as int, m.rows as int);
}

/// Transposing twice gives the matrix back.
pub proof fn lemma_transpose_involution<T>(m: Grid<T>)
    requires
        m.wf(),
    ensures
        m.transpose().wf(),
        m.transpose().transpose() == m,
{
    let t = m.transpose();
    let tt = t.transpose();
    assert(m.cols * m.rows == m.rows * m.cols) by (nonlinear_arith);
    assert forall|k: int| 0 <= k < m.cells.len() implies tt.cells[k] == m.cells[k] by {
        lemma_position(k, m.rows as int, m.cols as int);
        let r = k / (m.cols as int);
        let c = k % (m.cols as int);
        lemma_offset(r, c, m.rows as int, m.cols as int);
        lemma_transpose_at(t, r, c);
        lemma_transpose_at(m, c, r);
    }
    assert(tt.cells =~= m.cells);
}

/// The element-wise product does not depend on the order of its operands,
/// wherever the scalar product of the paired cells does not.
pub proof fn lemma_hadamard_commutes<T: Scalar>(a: Grid<T>, b: Grid<T>)
    requires
        a.same_shape(b),
        a.cells.len() == b.cells.len(),
        forall|i: int|
            0 <= i < a.cells.len() ==> #[trigger] a.cells[i].mul_spec(b.cells[i])
                == b.cells[i].mul_spec(a.cells[i]),
    ensures
        a.hadamard(b) == b.hadamard(a),
{
    assert(a.hadamard(b).cells =~= b.hadamard(a).cells);
}

/// Adding a matrix and then subtracting it again gives the first matrix
/// back, wherever adding the negated cell undoes adding the cell.
pub proof fn lemma_sum_then_difference<T: Scalar>(a: Grid<T>, b: Grid<T>)
    requires
        a.same_shape(b),
        a.cells.len() == b.cells.len(),
        forall|i: int|
            0 <= i < a.cells.len() ==> #[trigger] a.cells[i].add_spec(b.cells[i]).add_spec(
                b.cells[i].mul_spec(minus_one::<T>()),
            ) == a.cells[i],
    ensures
        a.sum(b).same_shape(b),
        a.sum(b).cells.len() == b.cells.len(),
        a.sum(b).difference(b) == a,
{
    assert(a.sum(b).difference(b).cells =~= a.cells);
}

/// A dot product is the series of its products.
pub proof fn lemma_dot_is_series<T: Scalar>(
    a: Grid<T>,
    row: int,
    b: Grid<T>,
    col: int,
    terms: nat,
)
    ensures
        a.dot(row, b, col, terms) == series(
            |t: int| a.at(row, t).mul_spec(b.at(t, col)),
            terms,
        ),
    decreases terms,
{
    if terms > 0 {
        lemma_dot_is_series(a, row, b, col, (terms - 1) as nat);
    }
}

/// The cell of a product at (`row`, `col`) is the dot product of that row
/// and that column.
pub proof fn lemma_product_at<T: Scalar>(a: Grid<T>, b: Grid<T>, row: int, col: int)
    requires
        0 <= row < a.rows,
        0 <= col < b.cols,
    ensures
        a.product(b).at(row, col) == a.dot(row, b, col, a.cols),
{
    lemma_offset(row, col, a.rows as int, b.cols as int);
}

/// One cell of the two ways to multiply three matrices.
proof fn lemma_product_associative_at<T: Scalar>(
    a: Grid<T>,
    b: Grid<T>,
    c: Grid<T>,
    row: int,
    col: int,
)
    requires
        semiring::<T>(),
        a.cols == b.rows,
        b.cols == c.rows,
        0 <= row < a.rows,
        0 <= col < c.cols,
    ensures
        a.product(b).dot(row, c, col, b.cols) == a.dot(row, b.product(c), col, a.cols),
{
    let ab = a.product(b);
    let bc = b.product(c);
    let m = a.cols;
    let p = b.cols;
    let h = |t: int, j: int| a.at(row, t).mul_spec(b.at(t, j).mul_spec(c.at(j, col)));
    let by_rows = |j: int| series(|t: int| h(t, j), m);
    let by_columns = |t: int| series(|j: int| h(t, j), p);

    // the left side, term by term
    let left = |j: int| ab.at(row, j).mul_spec(c.at(j, col));
    lemma_dot_is_series(ab, row, c, col, p);
    assert forall|j: int| 0 <= j < p implies #[trigger] left(j) == by_rows(j) by {
        let factors = |t: int| a.at(row, t).mul_spec(b.at(t, j));
        lemma_product_at(a, b, row, j);
        lemma_dot_is_series(a, row, b, j, m);
        lemma_series_times(factors, m, c.at(j, col));
        assert forall|t: int| 0 <= t < m implies #[trigger] factors(t).mul_spec(c.at(j, col))
            == h(t, j) by {
            reveal(semiring);
        }
        lemma_series_of_equal_terms(
            |t: int| factors(t).mul_spec(c.at(j, col)),
            |t: int| h(t, j),
            m,
        );
    }
    lemma_series_of_equal_terms(left, by_rows, p);

    // the right side, term by term
    let right = |t: int| a.at(row, t).mul_spec(bc.at(t, col));
    lemma_dot_is_series(a, row, bc, col, m);
    assert forall|t: int| 0 <= t < m implies #[trigger] right(t) == by_columns(t) by {
        let factors = |j: int| b.at(t, j).mul_spec(c.at(j, col));
        lemma_product_at(b, c, t, col);
        lemma_dot_is_series(b, t, c, col, p);
        lemma_times_series(a.at(row, t), factors, p);
        lemma_series_of_equal_terms(
            |j: int| a.at(row, t).mul_spec(factors(j)),
            |j: int| h(t, j),
            p,
        );
    }
    lemma_series_of_equal_terms(right, by_columns, m);

    lemma_series_exchange(h, m, p);
    lemma_series_of_equal_terms(by_rows, |j: int| series(|t: int| h(t, j), m), p);
    lemma_series_of_equal_terms(by_columns, |t: int| series(|j: int| h(t, j), p), m);
}

/// The matrix product is associative over a semiring: where the sum and
/// the product of the scalars obey the laws of a semiring, multiplying
/// three matrices from the left gives what multiplying them from the right
/// gives.
pub proof fn lemma_product_associative<T: Scalar>(a: Grid<T>, b: Grid<T>, c: Grid<T>)
    requires
        semiring::<T>(),
        a.cols == b.rows,
        b.cols == c.rows,
    ensures
        a.product(b).product(c) == a.product(b.product(c)),
{
    let left = a.product(b).product(c);
    let right = a.product(b.product(c));
    assert forall|k: int| 0 <= k < left.cells.len() implies left.cells[k] == right.cells[k] by {
        lemma_position(k, a.rows as int, c.cols as int);
        lemma_product_associative_at(a, b, c, k / (c.cols as int), k % (c.cols as int));
    }
    assert(left.cells =~= right.cells);
}

} // verus!
