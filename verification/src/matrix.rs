//! Dense matrices stored row by row, and their shape-checked algebra.
use crate::grid::{lemma_cell_sum_term, lemma_dot_term, Grid};
use crate::index::lemma_offset;
use crate::scalar::{
    exact_constants, exact_ring, is_product, is_sum, make_constant, one, zero, Scalar,
};
use vstd::prelude::*;
use vstd::std_specs::cmp::{PartialEqSpec, PartialEqSpecImpl};
use vstd::std_specs::ops::{AddSpec, MulSpec};

verus! {

/// A dense matrix: `rows * cols` elements, row after row.
///
/// The fields are open, and [`Matrix::create`] takes them as they come, so a
/// value may hold more or fewer elements than its shape announces. The
/// operations say which of them they accept.
#[derive(Debug)]
pub struct Matrix<T> {
    pub cols: usize,
    pub rows: usize,
    pub elements: Vec<T>,
}

impl<T> View for Matrix<T> {
    type V = Grid<T>;

    open spec fn view(&self) -> Grid<T> {
        Grid { rows: self.rows as nat, cols: self.cols as nat, cells: self.elements@ }
    }
}

/// Two matrices are equal when they announce the same shape, hold the same
/// number of elements, and hold equal elements at every place.
impl<T: PartialEq> PartialEq for Matrix<T> {
    fn eq(&self, other: &Self) -> (result: bool) {
        let mut result = self.cols == other.cols && self.rows == other.rows
            && self.elements.len() == other.elements.len();
        let n = self.elements.len();
        let mut i: usize = 0;
        while i < n
            invariant
                n == self.elements.len(),
                0 <= i <= n,
                result ==> n == other.elements.len(),
                T::obeys_eq_spec() ==> (result <==> {
                    &&& self.cols == other.cols
                    &&& self.rows == other.rows
                    &&& self.elements.len() == other.elements.len()
                    &&& forall|k: int|
                        0 <= k < i ==> #[trigger] self.elements[k].eq_spec(&other.elements[k])
                }),
            decreases n - i,
        {
            result = result && self.elements[i] == other.elements[i];
            i += 1;
        }
        result
    }
}

impl<T: PartialEq> PartialEqSpecImpl for Matrix<T> {
    open spec fn obeys_eq_spec() -> bool {
        T::obeys_eq_spec()
    }

    open spec fn eq_spec(&self, other: &Self) -> bool {
        &&& self.cols == other.cols
        &&& self.rows == other.rows
        &&& self.elements.len() == other.elements.len()
        &&& forall|k: int|
            0 <= k < self.elements.len() ==> #[trigger] self.elements[k].eq_spec(
                &other.elements[k],
            )
    }
}

/// Why a sum or a difference was refused.
#[derive(Debug, Clone, Copy, PartialEq, Eq)]
pub enum MatrixAdditionOperationError {
    MatricesShapesDoNotMatch,
    MatricesHaveDifferentNumberOfElements,
}

/// Why a product was refused.
#[derive(Debug, Clone, Copy, PartialEq, Eq)]
pub enum MatrixMultiplicationOperationError {
    LeftMatrixColumnsDoNotEqualRightMatrixRows,
}

/// Why a matrix could not be extended.
#[derive(Debug, Clone, Copy, PartialEq, Eq)]
pub enum MatrixExtendOperationError {
    NotEnoughValuesToExtend,
}

/// Why an element-wise product was refused.
#[derive(Debug, Clone, Copy, PartialEq, Eq)]
pub enum MatrixHadamardOperationError {
    MatricesShapesDoNotMatch,
    MatricesHaveDifferentNumberOfElements,
}

/// A copy of `values`.
pub(crate) fn duplicate<T: Copy>(values: &Vec<T>) -> (copy: Vec<T>)
    ensures
        copy@ == values@,
{
    let mut copy: Vec<T> = Vec::new();
    let mut i: usize = 0;
    while i < values.len()
        invariant
            0 <= i <= values.len(),
            copy@ == values@.take(i as int),
        decreases values.len() - i,
    {
        copy.push(values[i]);
        i += 1;
    }
    copy
}

impl<T: Copy> Matrix<T> {
    /// A matrix of the given shape over the given elements, unchecked.
    pub fn create(cols: usize, rows: usize, elements: Vec<T>) -> (m: Matrix<T>)
        ensures
            m.cols == cols,
            m.rows == rows,
            m.elements == elements,
    {
        Matrix { cols, rows, elements }
    }

    /// The single row made of `elements`.
    pub fn from_vec(elements: Vec<T>) -> (m: Matrix<T>)
        ensures
            m@ == Grid::row_vector(elements@),
            m.elements == elements,
            m@.wf(),
    {
        Matrix::create(elements.len(), 1, elements)
    }

    /// The matrix of the same shape whose every element is what `mapper`
    /// makes of the element at its place.
    pub fn map<F>(m: &Matrix<T>, mapper: F) -> (r: Matrix<T>) where F: Fn(&T) -> T
        requires
            forall|i: int| 0 <= i < m.elements.len() ==> call_requires(mapper, (&m.elements[i],)),
        ensures
            r.rows == m.rows,
            r.cols == m.cols,
            r.elements.len() == m.elements.len(),
            forall|i: int|
                0 <= i < m.elements.len() ==> call_ensures(
                    mapper,
                    (&m.elements[i],),
                    #[trigger] r.elements[i],
                ),
    {
        let mut result_elements: Vec<T> = Vec::new();
        let n = m.elements.len();
        let mut i: usize = 0;
        while i < n
            invariant
                n == m.elements.len(),
                0 <= i <= n,
                result_elements.len() == i,
                forall|k: int| 0 <= k < n ==> call_requires(mapper, (&m.elements[k],)),
                forall|k: int|
                    0 <= k < i ==> call_ensures(
                        mapper,
                        (&m.elements[k],),
                        #[trigger] result_elements[k],
                    ),
            decreases n - i,
        {
            result_elements.push(mapper(&m.elements[i]));
            i += 1;
        }
        Matrix { rows: m.rows, cols: m.cols, elements: result_elements }
    }

    /// The element in column `col` of row `row`.
    pub fn get(&self, col: usize, row: usize) -> (e: T)
        requires
            row * self.cols + col < self.elements.len(),
        ensures
            e == self@.at(row as int, col as int),
    {
        assert(row * self.cols >= 0) by (nonlinear_arith);
        let index = row * self.cols + col;
        self.elements[index]
    }

    /// Replaces the element in column `col` of row `row` by `value`.
    pub fn set(&mut self, col: usize, row: usize, value: T)
        requires
            row * old(self).cols + col < old(self).elements.len(),
        ensures
            final(self).cols == old(self).cols,
            final(self).rows == old(self).rows,
            final(self).elements@ == old(self).elements@.update(
                row * old(self).cols + col,
                value,
            ),
    {
        assert(row * self.cols >= 0) by (nonlinear_arith);
        let index = row * self.cols + col;
        self.elements[index] = value;
    }

    /// The transpose: the element at (`r`, `c`) of the result is the one at
    /// (`c`, `r`) of `m`.
    pub fn transposition(m: &Matrix<T>) -> (t: Matrix<T>)
        requires
            m@.full(),
        ensures
            t@ == m@.transpose(),
            t@.wf(),
    {
        let ghost target = m@.transpose().cells;
        let mut result_elements: Vec<T> = Vec::new();
        let mut i: usize = 0;
        while i < m.cols
            invariant
                m@.full(),
                target == m@.transpose().cells,
                0 <= i <= m.cols,
                result_elements.len() == i * m.rows,
                forall|k: int| 0 <= k < result_elements.len() ==> result_elements[k] == target[k],
            decreases m.cols - i,
        {
            let mut j: usize = 0;
            while j < m.rows
                invariant
                    m@.full(),
                    target == m@.transpose().cells,
                    0 <= i < m.cols,
                    0 <= j <= m.rows,
                    result_elements.len() == i * m.rows + j,
                    forall|k: int|
                        0 <= k < result_elements.len() ==> result_elements[k] == target[k],
                decreases m.rows - j,
            {
                proof {
                    lemma_offset(j as int, i as int, m.rows as int, m.cols as int);
                    lemma_offset(i as int, j as int, m.cols as int, m.rows as int);
                    assert(m.cols * m.rows == m.rows * m.cols) by (nonlinear_arith);
                    assert(0 <= j * m.cols) by (nonlinear_arith);
                    assert(j * m.cols + i < m.elements.len());
                }
                let index = j * m.cols + i;
                result_elements.push(m.elements[index]);
                j += 1;
            }
            assert((i + 1) * m.rows == i * m.rows + m.rows) by (nonlinear_arith);
            i += 1;
        }
        proof {
            assert(m.cols * m.rows == m.rows * m.cols) by (nonlinear_arith);
            assert(result_elements@ =~= target);
        }
        Matrix { cols: m.rows, rows: m.cols, elements: result_elements }
    }

    /// One more row below the others, made of the first `m.cols` of
    /// `values`; refused when `values` is shorter than a row.
    pub fn extend_columns(m: &Matrix<T>, values: Vec<T>) -> (r: Result<
        Matrix<T>,
        MatrixExtendOperationError,
    >)
        requires
            values.len() >= m.cols ==> m.rows < usize::MAX,
        ensures
            values.len() < m.cols <==> r == Err::<Matrix<T>, MatrixExtendOperationError>(
                MatrixExtendOperationError::NotEnoughValuesToExtend,
            ),
            values.len() >= m.cols <==> r.is_ok(),
            r.is_ok() ==> r.unwrap()@ == m@.with_row(values@.take(m.cols as int)),
            r.is_ok() && m@.wf() ==> r.unwrap()@.wf(),
    {
        if values.len() < m.cols {
            return Err(MatrixExtendOperationError::NotEnoughValuesToExtend);
        }
        let ghost row = values@.take(m.cols as int);
        let mut result_elements: Vec<T> = Vec::new();
        for x in 0..m.elements.len()
            invariant
                result_elements@ == m.elements@.take(x as int),
        {
            result_elements.push(m.elements[x]);
            assert(m.elements@.take(x as int).push(m.elements@[x as int]) =~= m.elements@.take(
                x + 1,
            ));
        }
        for x in 0..m.cols
            invariant
                values.len() >= m.cols,
                row == values@.take(m.cols as int),
                result_elements@ == m.elements@ + row.take(x as int),
        {
            result_elements.push(values[x]);
            assert((m.elements@ + row.take(x as int)).push(row[x as int]) =~= m.elements@
                + row.take(x + 1));
        }
        assert(row.take(m.cols as int) =~= row);
        assert(m@.wf() ==> (m.rows + 1) * m.cols == m.rows * m.cols + m.cols) by (nonlinear_arith);
        Ok(Matrix { cols: m.cols, rows: m.rows + 1, elements: result_elements })
    }

    /// One more column to the right of the others: row `r` is followed by
    /// `values[r]`; refused when `values` holds fewer values than there are
    /// rows.
    pub fn extend_rows(m: &Matrix<T>, values: Vec<T>) -> (r: Result<
        Matrix<T>,
        MatrixExtendOperationError,
    >)
        requires
            values.len() >= m.rows ==> m@.wf() && m.cols < usize::MAX,
        ensures
            values.len() < m.rows <==> r == Err::<Matrix<T>, MatrixExtendOperationError>(
                MatrixExtendOperationError::NotEnoughValuesToExtend,
            ),
            values.len() >= m.rows <==> r.is_ok(),
            r.is_ok() ==> r.unwrap()@ == m@.with_column(values@) && r.unwrap()@.wf(),
    {
        if values.len() < m.rows {
            return Err(MatrixExtendOperationError::NotEnoughValuesToExtend);
        }
        let ghost target = m@.with_column(values@).cells;
        let ghost width = m.cols + 1;
        let mut result_elements: Vec<T> = Vec::new();
        let mut row: usize = 0;
        while row < m.rows
            invariant
                m@.wf(),
                values.len() >= m.rows,
                width == m.cols + 1,
                target == m@.with_column(values@).cells,
                0 <= row <= m.rows,
                result_elements.len() == row * width,
                forall|k: int| 0 <= k < result_elements.len() ==> result_elements[k] == target[k],
            decreases m.rows - row,
        {
            let mut col: usize = 0;
            while col < m.cols
                invariant
                    m@.wf(),
                    width == m.cols + 1,
                    target == m@.with_column(values@).cells,
                    0 <= row < m.rows,
                    0 <= col <= m.cols,
                    result_elements.len() == row * width + col,
                    forall|k: int|
                        0 <= k < result_elements.len() ==> result_elements[k] == target[k],
                decreases m.cols - col,
            {
                proof {
                    lemma_offset(row as int, col as int, m.rows as int, m.cols as int);
                    lemma_offset(row as int, col as int, m.rows as int, width as int);
                    assert(0 <= row * m.cols) by (nonlinear_arith);
                    assert(row * m.cols + col < m.elements.len());
                }
                let index = row * m.cols + col;
                result_elements.push(m.elements[index]);
                col += 1;
            }
            proof {
                lemma_offset(row as int, m.cols as int, m.rows as int, width as int);
                assert((row + 1) * width == row * width + m.cols + 1) by (nonlinear_arith)
                    requires
                        width == m.cols + 1,
                ;
            }
            result_elements.push(values[row]);
            row += 1;
        }
        assert(result_elements@ =~= target);
        Ok(Matrix { cols: m.cols + 1, rows: m.rows, elements: result_elements })
    }
}

impl<T: Scalar> Matrix<T> {
    /// The element-wise sum of two matrices of one shape and one size.
    pub fn addition(m1: &Matrix<T>, m2: &Matrix<T>) -> (r: Result<
        Matrix<T>,
        MatrixAdditionOperationError,
    >)
        requires
            m1@.same_shape(m2@) && m1.elements.len() == m2.elements.len() ==> m1@.sum_defined(m2@),
        ensures
            !m1@.same_shape(m2@) <==> r == Err::<Matrix<T>, MatrixAdditionOperationError>(
                MatrixAdditionOperationError::MatricesShapesDoNotMatch,
            ),
            m1@.same_shape(m2@) && m1.elements.len() != m2.elements.len() <==> r == Err::<
                Matrix<T>,
                MatrixAdditionOperationError,
            >(MatrixAdditionOperationError::MatricesHaveDifferentNumberOfElements),
            m1@.same_shape(m2@) && m1.elements.len() == m2.elements.len() <==> r.is_ok(),
            r.is_ok() ==> {
                let sum = r.unwrap();
                &&& sum.rows == m1.rows
                &&& sum.cols == m1.cols
                &&& sum.elements.len() == m1.elements.len()
                &&& forall|i: int|
                    0 <= i < sum.elements.len() ==> is_sum(
                        m1.elements[i],
                        m2.elements[i],
                        #[trigger] sum.elements[i],
                    )
                &&& T::obeys_add_spec() ==> sum@ == m1@.sum(m2@)
            },
    {
        if m1.rows != m2.rows || m1.cols != m2.cols {
            return Err(MatrixAdditionOperationError::MatricesShapesDoNotMatch);
        }
        if m1.elements.len() != m2.elements.len() {
            return Err(MatrixAdditionOperationError::MatricesHaveDifferentNumberOfElements);
        }
        let n = m1.elements.len();
        let mut result_elements: Vec<T> = Vec::new();
        let mut i: usize = 0;
        while i < n
            invariant
                n == m1.elements.len(),
                n == m2.elements.len(),
                m1@.sum_defined(m2@),
                0 <= i <= n,
                result_elements.len() == i,
                forall|k: int|
                    0 <= k < i ==> is_sum(
                        m1.elements[k],
                        m2.elements[k],
                        #[trigger] result_elements[k],
                    ),
            decreases n - i,
        {
            assert(m1@.cells[i as int].add_req(m2@.cells[i as int]));
            result_elements.push(m1.elements[i] + m2.elements[i]);
            i += 1;
        }
        let sum = Matrix { cols: m1.cols, rows: m1.rows, elements: result_elements };
        assert(T::obeys_add_spec() ==> sum@.cells =~= m1@.sum(m2@).cells);
        Ok(sum)
    }

    /// Every element of `m` multiplied by `s`.
    pub fn scalar_multiplication(m: &Matrix<T>, s: T) -> (r: Matrix<T>)
        requires
            m@.scaled_defined(s),
        ensures
            r.rows == m.rows,
            r.cols == m.cols,
            r.elements.len() == m.elements.len(),
            forall|i: int|
                0 <= i < r.elements.len() ==> is_product(m.elements[i], s, #[trigger] r.elements[i]),
            T::obeys_mul_spec() ==> r@ == m@.scaled(s),
    {
        let times = |e: &T| -> (p: T)
            requires
                e.mul_req(s),
            ensures
                is_product(*e, s, p),
            { *e * s };
        assert forall|i: int| 0 <= i < m.elements.len() implies call_requires(
            times,
            (&m.elements[i],),
        ) by {
            assert(m@.cells[i].mul_req(s));
        }
        let r = Matrix::map(m, times);
        assert(T::obeys_mul_spec() ==> r@.cells =~= m@.scaled(s).cells);
        r
    }

    /// The element-wise product of two matrices of one shape and one size.
    pub fn hadamard(m1: &Matrix<T>, m2: &Matrix<T>) -> (r: Result<
        Matrix<T>,
        MatrixHadamardOperationError,
    >)
        requires
            m1@.same_shape(m2@) && m1.elements.len() == m2.elements.len()
                ==> m1@.hadamard_defined(m2@),
        ensures
            !m1@.same_shape(m2@) <==> r == Err::<Matrix<T>, MatrixHadamardOperationError>(
                MatrixHadamardOperationError::MatricesShapesDoNotMatch,
            ),
            m1@.same_shape(m2@) && m1.elements.len() != m2.elements.len() <==> r == Err::<
                Matrix<T>,
                MatrixHadamardOperationError,
            >(MatrixHadamardOperationError::MatricesHaveDifferentNumberOfElements),
            m1@.same_shape(m2@) && m1.elements.len() == m2.elements.len() <==> r.is_ok(),
            r.is_ok() ==> {
                let product = r.unwrap();
                &&& product.rows == m1.rows
                &&& product.cols == m1.cols
                &&& product.elements.len() == m1.elements.len()
                &&& forall|i: int|
                    0 <= i < product.elements.len() ==> is_product(
                        m1.elements[i],
                        m2.elements[i],
                        #[trigger] product.elements[i],
                    )
                &&& T::obeys_mul_spec() ==> product@ == m1@.hadamard(m2@)
            },
    {
        if m1.rows != m2.rows || m1.cols != m2.cols {
            return Err(MatrixHadamardOperationError::MatricesShapesDoNotMatch);
        }
        if m1.elements.len() != m2.elements.len() {
            return Err(MatrixHadamardOperationError::MatricesHaveDifferentNumberOfElements);
        }
        let n = m1.elements.len();
        let mut result_elements: Vec<T> = Vec::new();
        let mut i: usize = 0;
        while i < n
            invariant
                n == m1.elements.len(),
                n == m2.elements.len(),
                m1@.hadamard_defined(m2@),
                0 <= i <= n,
                result_elements.len() == i,
                forall|k: int|
                    0 <= k < i ==> is_product(
                        m1.elements[k],
                        m2.elements[k],
                        #[trigger] result_elements[k],
                    ),
            decreases n - i,
        {
            assert(m1@.cells[i as int].mul_req(m2@.cells[i as int]));
            result_elements.push(m1.elements[i] * m2.elements[i]);
            i += 1;
        }
        let product = Matrix { cols: m1.cols, rows: m1.rows, elements: result_elements };
        assert(T::obeys_mul_spec() ==> product@.cells =~= m1@.hadamard(m2@).cells);
        Ok(product)
    }

    /// `m1` minus `m2`, computed as the sum of `m1` and of `m2` scaled by
    /// minus one.
    pub fn subtraction(m1: &Matrix<T>, m2: &Matrix<T>) -> (r: Result<
        Matrix<T>,
        MatrixAdditionOperationError,
    >)
        requires
            m1@.same_shape(m2@) && m1.elements.len() == m2.elements.len() ==> {
                &&& exact_ring::<T>()
                &&& m1@.difference_defined(m2@)
            },
        ensures
            !m1@.same_shape(m2@) <==> r == Err::<Matrix<T>, MatrixAdditionOperationError>(
                MatrixAdditionOperationError::MatricesShapesDoNotMatch,
            ),
            m1@.same_shape(m2@) && m1.elements.len() != m2.elements.len() <==> r == Err::<
                Matrix<T>,
                MatrixAdditionOperationError,
            >(MatrixAdditionOperationError::MatricesHaveDifferentNumberOfElements),
            m1@.same_shape(m2@) && m1.elements.len() == m2.elements.len() <==> r.is_ok(),
            r.is_ok() ==> r.unwrap()@ == m1@.difference(m2@),
    {
        if m1.rows != m2.rows || m1.cols != m2.cols {
            return Err(MatrixAdditionOperationError::MatricesShapesDoNotMatch);
        }
        if m1.elements.len() != m2.elements.len() {
            return Err(MatrixAdditionOperationError::MatricesHaveDifferentNumberOfElements);
        }
        let negated = Matrix::scalar_multiplication(m2, make_constant::<T>(-1i8));
        Matrix::addition(m1, &negated)
    }

    /// The matrix product of `m1` and `m2`: refused unless `m1` has as many
    /// columns as `m2` has rows.
    pub fn matrix_multiplication(m1: &Matrix<T>, m2: &Matrix<T>) -> (r: Result<
        Matrix<T>,
        MatrixMultiplicationOperationError,
    >)
        requires
            m1.cols == m2.rows ==> {
                &&& exact_ring::<T>()
                &&& m1@.full()
                &&& m2@.full()
                &&& m1@.product_defined(m2@)
            },
        ensures
            m1.cols != m2.rows <==> r == Err::<Matrix<T>, MatrixMultiplicationOperationError>(
                MatrixMultiplicationOperationError::LeftMatrixColumnsDoNotEqualRightMatrixRows,
            ),
            m1.cols == m2.rows <==> r.is_ok(),
            r.is_ok() ==> r.unwrap()@ == m1@.product(m2@) && r.unwrap()@.wf(),
    {
        if m1.cols != m2.rows {
            return Err(
                MatrixMultiplicationOperationError::LeftMatrixColumnsDoNotEqualRightMatrixRows,
            );
        }
        let ghost target = m1@.product(m2@).cells;
        let mut result_elements: Vec<T> = Vec::new();
        let mut j: usize = 0;
        while j < m1.rows
            invariant
                m1.cols == m2.rows,
                exact_ring::<T>(),
                m1@.full(),
                m2@.full(),
                m1@.product_defined(m2@),
                target == m1@.product(m2@).cells,
                0 <= j <= m1.rows,
                result_elements.len() == j * m2.cols,
                forall|x: int| 0 <= x < result_elements.len() ==> result_elements[x] == target[x],
            decreases m1.rows - j,
        {
            let mut i: usize = 0;
            while i < m2.cols
                invariant
                    m1.cols == m2.rows,
                    exact_ring::<T>(),
                    m1@.full(),
                    m2@.full(),
                    m1@.product_defined(m2@),
                    target == m1@.product(m2@).cells,
                    0 <= j < m1.rows,
                    0 <= i <= m2.cols,
                    result_elements.len() == j * m2.cols + i,
                    forall|x: int|
                        0 <= x < result_elements.len() ==> result_elements[x] == target[x],
                decreases m2.cols - i,
            {
                let mut sum: T = make_constant::<T>(0i8);
                let mut k: usize = 0;
                while k < m1.cols
                    invariant
                        m1.cols == m2.rows,
                        exact_ring::<T>(),
                        m1@.full(),
                        m2@.full(),
                        m1@.dot_defined(j as int, m2@, i as int, m1@.cols),
                        0 <= j < m1.rows,
                        0 <= i < m2.cols,
                        0 <= k <= m1.cols,
                        sum == m1@.dot(j as int, m2@, i as int, k as nat),
                    decreases m1.cols - k,
                {
                    proof {
                        lemma_offset(j as int, k as int, m1.rows as int, m1.cols as int);
                        lemma_offset(k as int, i as int, m2.rows as int, m2.cols as int);
                        lemma_dot_term(m1@, j as int, m2@, i as int, m1@.cols, k as nat);
                    }
                    sum = sum + m1.get(k, j) * m2.get(i, k);
                    k += 1;
                }
                proof {
                    lemma_offset(j as int, i as int, m1.rows as int, m2.cols as int);
                }
                result_elements.push(sum);
                i += 1;
            }
            assert((j + 1) * m2.cols == j * m2.cols + m2.cols) by (nonlinear_arith);
            j += 1;
        }
        assert(result_elements@ =~= target);
        Ok(Matrix::create(m2.cols, m1.rows, result_elements))
    }

    /// The square matrix of side `n` with one on the diagonal and zero
    /// elsewhere.
    pub fn identity(n: usize) -> (r: Matrix<T>)
        requires
            n * n <= usize::MAX,
        ensures
            r.rows == n,
            r.cols == n,
            r@.wf(),
            exact_constants::<T>() ==> r@ == Grid::<T>::identity(n as nat),
    {
        let nothing = make_constant::<T>(0i8);
        let unit = make_constant::<T>(1i8);
        let ghost target = Grid::<T>::identity(n as nat).cells;
        let mut result_elements: Vec<T> = Vec::new();
        let mut j: usize = 0;
        while j < n
            invariant
                n * n <= usize::MAX,
                target == Grid::<T>::identity(n as nat).cells,
                exact_constants::<T>() ==> nothing == zero::<T>() && unit
                    == one::<T>(),
                0 <= j <= n,
                result_elements.len() == j * n,
                exact_constants::<T>() ==> forall|x: int|
                    0 <= x < result_elements.len() ==> result_elements[x] == target[x],
            decreases n - j,
        {
            let mut i: usize = 0;
            while i < n
                invariant
                    n * n <= usize::MAX,
                    target == Grid::<T>::identity(n as nat).cells,
                    exact_constants::<T>() ==> nothing == zero::<T>() && unit
                        == one::<T>(),
                    0 <= j < n,
                    0 <= i <= n,
                    result_elements.len() == j * n + i,
                    exact_constants::<T>() ==> forall|x: int|
                        0 <= x < result_elements.len() ==> result_elements[x] == target[x],
                decreases n - i,
            {
                proof {
                    lemma_offset(j as int, i as int, n as int, n as int);
                }
                if i == j {
                    result_elements.push(unit);
                } else {
                    result_elements.push(nothing);
                }
                i += 1;
            }
            assert((j + 1) * n == j * n + n) by (nonlinear_arith);
            j += 1;
        }
        assert(exact_constants::<T>() ==> result_elements@ =~= target);
        Matrix { cols: n, rows: n, elements: result_elements }
    }

    /// The sum of all elements, added up from zero in storage order.
    pub fn sum(&self) -> (r: T)
        requires
            exact_ring::<T>(),
            self@.cell_sum_defined(self.elements.len() as nat),
        ensures
            r == self@.cell_sum(self.elements.len() as nat),
    {
        let mut sum: T = make_constant::<T>(0i8);
        let n = self.elements.len();
        let mut i: usize = 0;
        while i < n
            invariant
                exact_ring::<T>(),
                n == self.elements.len(),
                self@.cell_sum_defined(n as nat),
                0 <= i <= n,
                sum == self@.cell_sum(i as nat),
            decreases n - i,
        {
            proof {
                lemma_cell_sum_term(self@, n as nat, i as nat);
            }
            sum = sum + self.elements[i];
            i += 1;
        }
        sum
    }
}

} // verus!
