//! The mathematical model of a matrix: a shape and a row-major sequence of
//! cells. All contracts of the matrix operations are stated over this model.
use crate::scalar::{minus_one, one, zero, Scalar};
use vstd::prelude::*;
use vstd::std_specs::ops::{AddSpec, MulSpec};

verus! {

/// What a matrix is, seen from a contract.
pub struct Grid<T> {
    pub rows: nat,
    pub cols: nat,
    pub cells: Seq<T>,
}

impl<T> Grid<T> {
    /// The cells are exactly those of the shape.
    pub open spec fn wf(self) -> bool {
        self.cells.len() == self.rows * self.cols
    }

    /// There is a cell for every position of the shape.
    pub open spec fn full(self) -> bool {
        self.rows * self.cols <= self.cells.len()
    }

    /// The cell in row `row` and column `col`.
    pub open spec fn at(self, row: int, col: int) -> T {
        self.cells[row * self.cols + col]
    }

    /// The single row made of `values`.
    pub open spec fn row_vector(values: Seq<T>) -> Grid<T> {
        Grid { rows: 1, cols: values.len(), cells: values }
    }

    /// The same shape, with `f` applied to every cell.
    pub open spec fn mapped(self, f: spec_fn(T) -> T) -> Grid<T> {
        Grid { rows: self.rows, cols: self.cols, cells: self.cells.map_values(f) }
    }

    /// Rows and columns exchanged: the cell at (`r`, `c`) of the result is
    /// the cell at (`c`, `r`) of `self`.
    pub open spec fn transpose(self) -> Grid<T> {
        Grid {
            rows: self.cols,
            cols: self.rows,
            cells: Seq::new(
                self.rows * self.cols,
                |k: int| self.at(k % (self.rows as int), k / (self.rows as int)),
            ),
        }
    }

    /// One more row below the others, holding `values`.
    pub open spec fn with_row(self, values: Seq<T>) -> Grid<T> {
        Grid { rows: self.rows + 1, cols: self.cols, cells: self.cells + values }
    }

    /// One more column to the right of the others: row `r` ends in
    /// `values[r]`.
    pub open spec fn with_column(self, values: Seq<T>) -> Grid<T> {
        let width = self.cols + 1;
        Grid {
            rows: self.rows,
            cols: width,
            cells: Seq::new(
                self.rows * width,
                |k: int|
                    if k % (width as int) == self.cols {
                        values[k / (width as int)]
                    } else {
                        self.at(k / (width as int), k % (width as int))
                    },
            ),
        }
    }
}

impl<T: Scalar> Grid<T> {
    /// Both grids announce the same shape.
    pub open spec fn same_shape(self, other: Grid<T>) -> bool {
        self.rows == other.rows && self.cols == other.cols
    }

    /// The square grid of side `n` with one on the diagonal and zero
    /// elsewhere.
    pub open spec fn identity(n: nat) -> Grid<T> {
        Grid {
            rows: n,
            cols: n,
            cells: Seq::new(
                n * n,
                |k: int|
                    if k / (n as int) == k % (n as int) {
                        one::<T>()
                    } else {
                        zero::<T>()
                    },
            ),
        }
    }

    /// The running sum, started at zero, of the first `count` cells.
    pub open spec fn cell_sum(self, count: nat) -> T
        decreases count,
    {
        if count == 0 {
            zero::<T>()
        } else {
            self.cell_sum((count - 1) as nat).add_spec(self.cells[count - 1])
        }
    }

    /// Each of the first `count` cells can be added to the running sum.
    pub open spec fn cell_sum_defined(self, count: nat) -> bool
        decreases count,
    {
        count > 0 ==> {
            &&& self.cell_sum_defined((count - 1) as nat)
            &&& self.cell_sum((count - 1) as nat).add_req(self.cells[count - 1])
        }
    }

    /// Every cell of `self` can be added to the cell of `other` at its place.
    pub open spec fn sum_defined(self, other: Grid<T>) -> bool {
        forall|i: int|
            0 <= i < self.cells.len() ==> #[trigger] self.cells[i].add_req(other.cells[i])
    }

    /// The cell-wise sum, in the shape of `self`.
    pub open spec fn sum(self, other: Grid<T>) -> Grid<T> {
        Grid {
            rows: self.rows,
            cols: self.cols,
            cells: Seq::new(self.cells.len(), |i: int| self.cells[i].add_spec(other.cells[i])),
        }
    }

    /// Every cell of `self` can be multiplied by the cell of `other` at its
    /// place.
    pub open spec fn hadamard_defined(self, other: Grid<T>) -> bool {
        forall|i: int|
            0 <= i < self.cells.len() ==> #[trigger] self.cells[i].mul_req(other.cells[i])
    }

    /// The cell-wise product, in the shape of `self`.
    pub open spec fn hadamard(self, other: Grid<T>) -> Grid<T> {
        Grid {
            rows: self.rows,
            cols: self.cols,
            cells: Seq::new(self.cells.len(), |i: int| self.cells[i].mul_spec(other.cells[i])),
        }
    }

    /// Every cell can be multiplied by `factor`.
    pub open spec fn scaled_defined(self, factor: T) -> bool {
        forall|i: int| 0 <= i < self.cells.len() ==> #[trigger] self.cells[i].mul_req(factor)
    }

    /// Every cell multiplied by `factor`.
    pub open spec fn scaled(self, factor: T) -> Grid<T> {
        Grid {
            rows: self.rows,
            cols: self.cols,
            cells: Seq::new(self.cells.len(), |i: int| self.cells[i].mul_spec(factor)),
        }
    }

    /// Every cell of `other` can be negated, and the negated cell added to
    /// the cell of `self` at its place.
    pub open spec fn difference_defined(self, other: Grid<T>) -> bool {
        &&& other.scaled_defined(minus_one::<T>())
        &&& self.sum_defined(other.scaled(minus_one::<T>()))
    }

    /// `self` plus the negation of `other`: the sum of `self` and of `other`
    /// scaled by minus one.
    pub open spec fn difference(self, other: Grid<T>) -> Grid<T> {
        self.sum(other.scaled(minus_one::<T>()))
    }

    /// The running sum, started at zero, of the first `terms` products of
    /// the cells of row `row` of `self` with the cells of column `col` of
    /// `other`, taken from left to right.
    pub open spec fn dot(self, row: int, other: Grid<T>, col: int, terms: nat) -> T
        decreases terms,
    {
        if terms == 0 {
            zero::<T>()
        } else {
            self.dot(row, other, col, (terms - 1) as nat).add_spec(
                self.at(row, terms - 1).mul_spec(other.at(terms - 1, col)),
            )
        }
    }

    /// Each of the first `terms` products of `dot` can be formed and added
    /// to the running sum.
    pub open spec fn dot_defined(self, row: int, other: Grid<T>, col: int, terms: nat) -> bool
        decreases terms,
    {
        terms > 0 ==> {
            &&& self.dot_defined(row, other, col, (terms - 1) as nat)
            &&& self.at(row, terms - 1).mul_req(other.at(terms - 1, col))
            &&& self.dot(row, other, col, (terms - 1) as nat).add_req(
                self.at(row, terms - 1).mul_spec(other.at(terms - 1, col)),
            )
        }
    }

    /// Every cell of the matrix product can be computed.
    pub open spec fn product_defined(self, other: Grid<T>) -> bool {
        forall|row: int, col: int|
            0 <= row < self.rows && 0 <= col < other.cols ==> #[trigger] self.dot_defined(
                row,
                other,
                col,
                self.cols,
            )
    }

    /// The matrix product: the cell at (`r`, `c`) is the dot product of row
    /// `r` of `self` and column `c` of `other`.
    pub open spec fn product(self, other: Grid<T>) -> Grid<T> {
        Grid {
            rows: self.rows,
            cols: other.cols,
            cells: Seq::new(
                self.rows * other.cols,
                |k: int|
                    self.dot(k / (other.cols as int), other, k % (other.cols as int), self.cols),
            ),
        }
    }
}

/// What `dot_defined` promises for the term at place `k`: the shorter dot
/// product is defined too, and its next product can be formed and added.
pub proof fn lemma_dot_term<T: Scalar>(
    a: Grid<T>,
    row: int,
    b: Grid<T>,
    col: int,
    terms: nat,
    k: nat,
)
    requires
        a.dot_defined(row, b, col, terms),
        k < terms,
    ensures
        a.dot_defined(row, b, col, k),
        a.at(row, k as int).mul_req(b.at(k as int, col)),
        a.dot(row, b, col, k).add_req(a.at(row, k as int).mul_spec(b.at(k as int, col))),
    decreases terms,
{
    if k + 1 < terms {
        lemma_dot_term(a, row, b, col, (terms - 1) as nat, k);
    }
}

/// What `cell_sum_defined` promises for the cell at place `k`: the shorter
/// sum is defined too, and the cell can be added to it.
pub proof fn lemma_cell_sum_term<T: Scalar>(a: Grid<T>, count: nat, k: nat)
    requires
        a.cell_sum_defined(count),
        k < count,
    ensures
        a.cell_sum_defined(k),
        a.cell_sum(k).add_req(a.cells[k as int]),
    decreases count,
{
    if k + 1 < count {
        lemma_cell_sum_term(a, (count - 1) as nat, k);
    }
}

} // verus!
