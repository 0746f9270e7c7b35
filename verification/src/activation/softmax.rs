//! The normalised exponential, with the exponential function supplied by
//! the caller.
use crate::grid::Grid;
use crate::matrix::{duplicate, Matrix};
use crate::scalar::{exact, Scalar};
use vstd::arithmetic::div_mod::lemma_fundamental_div_mod_converse;
use vstd::prelude::*;
use vstd::std_specs::ops::DivSpec;

verus! {

/// The normalised exponential.
pub struct SoftMax {}

/// The value that `exp` gives for `x`.
pub open spec fn image<T, F: Fn(&T) -> T>(exp: F, x: T) -> T {
    choose|y: T| call_ensures(exp, (&x,), y)
}

/// `exp` is a function on `cells`: it accepts each of them and gives one
/// value for it.
pub open spec fn functional<T, F: Fn(&T) -> T>(exp: F, cells: Seq<T>) -> bool {
    forall|i: int|
        0 <= i < cells.len() ==> {
            &&& call_requires(exp, (&#[trigger] cells[i],))
            &&& forall|y: T| #[trigger] call_ensures(exp, (&cells[i],), y) ==> y == image(exp, cells[i])
        }
}

/// The function that `exp` computes.
pub open spec fn graph<T, F: Fn(&T) -> T>(exp: F) -> spec_fn(T) -> T {
    |x: T| image(exp, x)
}

/// Every cell's image under `f`, divided by the sum of all the images.
pub open spec fn softmax<T: Scalar>(m: Grid<T>, f: spec_fn(T) -> T) -> Grid<T> {
    let images = m.mapped(f);
    let sum = images.cell_sum(images.cells.len());
    images.mapped(|v: T| v.div_spec(sum))
}

/// The normalised exponential of `m` can be computed: the images of the
/// cells can be added up, and each can be divided by their sum.
pub open spec fn softmax_defined<T: Scalar>(m: Grid<T>, f: spec_fn(T) -> T) -> bool {
    let images = m.mapped(f);
    let sum = images.cell_sum(images.cells.len());
    &&& images.cell_sum_defined(images.cells.len())
    &&& forall|i: int| 0 <= i < images.cells.len() ==> #[trigger] images.cells[i].div_req(sum)
}

/// `copies` rows, each of them `row`.
pub open spec fn tiled<T>(row: Seq<T>, copies: nat) -> Grid<T> {
    Grid {
        rows: copies,
        cols: row.len(),
        cells: Seq::new(copies * row.len(), |k: int| row[k % (row.len() as int)]),
    }
}

/// The slope term of the normalised exponential at the column `m`: with `y`
/// the normalised exponential of `m`, the row `transpose(y) * (I - Y)`,
/// where `I` is the identity and every row of `Y` is `transpose(y)`.
pub open spec fn softmax_slope<T: Scalar>(m: Grid<T>, f: spec_fn(T) -> T) -> Grid<T> {
    let y = softmax(m, f);
    y.transpose().product(Grid::<T>::identity(m.rows).difference(tiled(y.cells, m.rows)))
}

/// The slope term of the normalised exponential at `m` can be computed.
pub open spec fn softmax_slope_defined<T: Scalar>(m: Grid<T>, f: spec_fn(T) -> T) -> bool {
    let y = softmax(m, f);
    let spread_out = tiled(y.cells, m.rows);
    &&& softmax_defined(m, f)
    &&& Grid::<T>::identity(m.rows).difference_defined(spread_out)
    &&& y.transpose().product_defined(Grid::<T>::identity(m.rows).difference(spread_out))
}

/// One more copy of the row below the others.
proof fn lemma_tiled_with_row<T>(row: Seq<T>, copies: nat)
    ensures
        tiled(row, copies).with_row(row) == tiled(row, copies + 1),
{
    let n = row.len() as int;
    let grown = tiled(row, copies).with_row(row);
    let target = tiled(row, copies + 1);
    assert((copies + 1) * n == copies * n + n) by (nonlinear_arith);
    assert(copies * n >= 0) by (nonlinear_arith)
        requires
            copies >= 0,
            n >= 0,
    ;
    assert forall|k: int| 0 <= k < grown.cells.len() implies grown.cells[k] == target.cells[k] by {
        if k >= copies * n {
            lemma_fundamental_div_mod_converse(k, n, copies as int, k - copies * n);
        }
    }
    assert(grown.cells =~= target.cells);
}

impl SoftMax {
    /// Every element's exponential, divided by the sum of the exponentials
    /// of all elements. The sum is taken from zero in storage order.
    pub fn activate<T: Scalar, F: Fn(&T) -> T>(m: &Matrix<T>, exp: F) -> (r: Matrix<T>)
        requires
            exact::<T>(),
            functional(exp, m@.cells),
            softmax_defined(m@, graph(exp)),
        ensures
            r@ == softmax(m@, graph(exp)),
    {
        let ghost f = graph(exp);
        let images = Matrix::map(m, &exp);
        assert(images@.cells =~= m@.mapped(f).cells);
        assert(images@ == m@.mapped(f));
        let sum = images.sum();
        let exponential = &exp;
        let share = |v: &T| -> (q: T)
            requires
                functional(exponential, seq![*v]),
                f(*v).div_req(sum),
            ensures
                q == f(*v).div_spec(sum),
            {
                assert(seq![*v][0] == *v);
                exponential(v) / sum
            };
        assert forall|i: int| 0 <= i < m.elements.len() implies call_requires(
            share,
            (&m.elements[i],),
        ) by {
            assert(m@.cells[i] == m.elements[i]);
            assert(functional(exp, seq![m.elements[i]]));
            assert(images@.cells[i].div_req(sum));
        }
        let r = Matrix::map(m, share);
        assert(r@.cells =~= softmax(m@, f).cells);
        r
    }

    /// The slope term of the normalised exponential at the column `m`. A
    /// matrix without rows and columns counts as a column and has the empty
    /// slope term.
    pub fn derivative<T: Scalar, F: Fn(&T) -> T>(m: &Matrix<T>, exp: F) -> (r: Matrix<T>)
        requires
            exact::<T>(),
            functional(exp, m@.cells),
            softmax_slope_defined(m@, graph(exp)),
            m@.wf(),
            (m.cols == 1 && m.rows >= 1) || (m.cols == 0 && m.rows == 0),
            m.rows * m.rows <= usize::MAX,
        ensures
            r@ == softmax_slope(m@, graph(exp)),
            r.rows == m.cols,
            r.cols == m.rows,
    {
        let ghost f = graph(exp);
        assert(graph(&exp) == f) by {
            assert(graph(&exp) =~= f);
        }
        let y = SoftMax::activate(m, &exp);
        let mut yt = Matrix::transposition(&SoftMax::activate(m, &exp));
        let extension_values = duplicate(&yt.elements);
        assert(y@.cells.len() == m.rows) by {
            assert(m.rows * 1 == m.rows);
            assert(0 * 0 == 0);
        }
        assert(yt@.cells.len() == m.rows) by {
            assert(m.rows * 1 == m.rows);
            assert(0 * 0 == 0);
        }
        let ghost mut tiles: nat = m.cols as nat;
        assert forall|k: int| 0 <= k < m.rows implies yt@.cells[k] == y@.cells[k] && tiled(
            y@.cells,
            tiles,
        ).cells[k] == y@.cells[k] by {
            lemma_fundamental_div_mod_converse(k, m.rows as int, 0, k);
            assert(k * 1 + 0 == k);
        }
        assert(yt@ == tiled(y@.cells, tiles)) by {
            assert(1 * m.rows == m.rows);
            assert(0 * 0 == 0);
            assert(yt@.cells =~= tiled(y@.cells, tiles).cells);
        }
        assert(yt@.cells =~= y@.cells);
        let mut copies: usize = 1;
        while copies < m.rows
            invariant
                (m.cols == 1 && m.rows >= 1) || (m.cols == 0 && m.rows == 0),
                1 <= copies,
                copies <= m.rows || (m.rows == 0 && copies == 1),
                tiles + 1 == copies + m.cols,
                extension_values@ == y@.cells,
                y@.cells.len() == m.rows,
                yt@ == tiled(y@.cells, tiles),
            decreases m.rows - copies,
        {
            proof {
                lemma_tiled_with_row(y@.cells, tiles);
                assert(y@.cells.take(m.rows as int) =~= y@.cells);
                tiles = tiles + 1;
            }
            yt = Matrix::extend_columns(&yt, duplicate(&extension_values)).unwrap();
            copies += 1;
        }
        assert(tiles == m.rows);
        let identity = Matrix::<T>::identity(m.rows);
        let difference = Matrix::subtraction(&identity, &yt).unwrap();
        let transposed = Matrix::transposition(&y);
        Matrix::matrix_multiplication(&transposed, &difference).unwrap()
    }
}

} // verus!
