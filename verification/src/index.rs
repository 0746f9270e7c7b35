//! Row-major positions: how a row and a column make an offset, and back.
use vstd::arithmetic::div_mod::{
    lemma_fundamental_div_mod, lemma_fundamental_div_mod_converse, lemma_mod_bound,
};
use vstd::prelude::*;

verus! {

/// The offset of a cell lies inside the shape, and row and column can be
/// read back from it.
pub proof fn lemma_offset(row: int, col: int, rows: int, cols: int)
    requires
        0 <= row < rows,
        0 <= col < cols,
    ensures
        0 <= row * cols + col < rows * cols,
        (row * cols + col) / cols == row,
        (row * cols + col) % cols == col,
{
    assert(row * cols >= 0) by (nonlinear_arith)
        requires
            row >= 0,
            cols > 0,
    ;
    assert(row * cols + cols <= rows * cols) by (nonlinear_arith)
        requires
            row + 1 <= rows,
            cols > 0,
    ;
    lemma_fundamental_div_mod_converse(row * cols + col, cols, row, col);
}

/// Every offset inside the shape is the offset of exactly one cell.
pub proof fn lemma_position(k: int, rows: int, cols: int)
    requires
        0 <= k < rows * cols,
        0 <= rows,
        0 <= cols,
    ensures
        0 < cols,
        0 <= k / cols < rows,
        0 <= k % cols < cols,
        k == (k / cols) * cols + k % cols,
{
    assert(cols > 0) by (nonlinear_arith)
        requires
            0 <= k < rows * cols,
            0 <= rows,
            0 <= cols,
    ;
    lemma_fundamental_div_mod(k, cols);
    lemma_mod_bound(k, cols);
    let q = k / cols;
    assert(cols * q == q * cols) by (nonlinear_arith);
    assert(0 <= q < rows) by (nonlinear_arith)
        requires
            k == q * cols + k % cols,
            0 <= k % cols < cols,
            0 <= k < rows * cols,
            cols > 0,
    ;
}

} // verus!
