use network::matrix::{Matrix, MatrixAdditionOperationError, MatrixExtendOperationError};
use network::render::lay_out;

#[test]
fn from_vec_is_a_single_row() {
    let m: Matrix<f32> = Matrix::from_vec(vec![1., 2., 3.]);
    assert_eq!(m, Matrix::create(3, 1, vec![1., 2., 3.]));
    let empty: Matrix<f32> = Matrix::from_vec(vec![]);
    assert_eq!(empty, Matrix::create(0, 1, vec![]));
}

#[test]
fn create_takes_the_elements_as_they_come() {
    let m: Matrix<f32> = Matrix::create(3, 2, vec![1., 2.]);
    assert_eq!(m.cols, 3);
    assert_eq!(m.rows, 2);
    assert_eq!(m.elements, vec![1., 2.]);
}

#[test]
fn map_applies_the_function_to_every_element() {
    let m: Matrix<f32> = Matrix::create(2, 2, vec![1., 2., 3., 4.]);
    let squared = Matrix::map(&m, |e| e * e);
    assert_eq!(squared, Matrix::create(2, 2, vec![1., 4., 9., 16.]));
}

#[test]
fn get_reads_by_column_then_row() {
    let m: Matrix<f32> = Matrix::create(3, 2, vec![0., 2., 3., 1., 4., 6.]);
    assert_eq!(m.get(0, 0), 0.);
    assert_eq!(m.get(2, 0), 3.);
    assert_eq!(m.get(0, 1), 1.);
    assert_eq!(m.get(1, 1), 4.);
    assert_eq!(m.get(2, 1), 6.);
}

#[test]
fn set_replaces_one_element() {
    let mut m: Matrix<f32> = Matrix::create(3, 2, vec![0., 2., 3., 1., 4., 6.]);
    m.set(1, 1, 9.5);
    assert_eq!(m, Matrix::create(3, 2, vec![0., 2., 3., 1., 9.5, 6.]));
    m.set(0, 0, -1.);
    assert_eq!(m, Matrix::create(3, 2, vec![-1., 2., 3., 1., 9.5, 6.]));
}

#[test]
fn identity_has_ones_on_the_diagonal() {
    let i: Matrix<f32> = Matrix::identity(3);
    assert_eq!(
        i,
        Matrix::create(3, 3, vec![1., 0., 0., 0., 1., 0., 0., 0., 1.])
    );
    let none: Matrix<f32> = Matrix::identity(0);
    assert_eq!(none, Matrix::create(0, 0, vec![]));
}

#[test]
fn identity_is_neutral_in_products() {
    let m: Matrix<f32> = Matrix::create(3, 2, vec![0., 2., 3., 1., 4., 6.]);
    assert_eq!(
        Matrix::matrix_multiplication(&m, &Matrix::identity(3)).unwrap(),
        m
    );
    assert_eq!(
        Matrix::matrix_multiplication(&Matrix::identity(2), &m).unwrap(),
        m
    );
}

#[test]
fn sum_adds_all_elements() {
    let m: Matrix<f32> = Matrix::create(3, 2, vec![0., 2., 3., 1., 4., 6.5]);
    assert_eq!(m.sum(), 16.5);
    let empty: Matrix<f32> = Matrix::create(0, 0, vec![]);
    assert_eq!(empty.sum(), 0.);
}

#[test]
fn product_of_a_row_and_a_column() {
    let row: Matrix<i32> = Matrix::create(3, 1, vec![1, 2, 3]);
    let column: Matrix<i32> = Matrix::create(1, 3, vec![4, 5, 6]);
    assert_eq!(
        Matrix::matrix_multiplication(&row, &column).unwrap(),
        Matrix::create(1, 1, vec![32])
    );
    assert_eq!(
        Matrix::matrix_multiplication(&column, &row).unwrap(),
        Matrix::create(3, 3, vec![4, 8, 12, 5, 10, 15, 6, 12, 18])
    );
}

#[test]
fn product_with_no_inner_dimension_is_all_zero() {
    let a: Matrix<f32> = Matrix::create(0, 2, vec![]);
    let b: Matrix<f32> = Matrix::create(3, 0, vec![]);
    assert_eq!(
        Matrix::matrix_multiplication(&a, &b).unwrap(),
        Matrix::create(3, 2, vec![0.; 6])
    );
}

#[test]
fn extend_columns_appends_one_row_and_no_more() {
    let m: Matrix<f32> = Matrix::create(2, 1, vec![1., 2.]);
    let longer = Matrix::extend_columns(&m, vec![7., 8., 9.]).unwrap();
    assert_eq!(longer, Matrix::create(2, 2, vec![1., 2., 7., 8.]));
    assert_eq!(longer.elements.len(), longer.rows * longer.cols);
    let exact = Matrix::extend_columns(&m, vec![7., 8.]).unwrap();
    assert_eq!(exact, longer);
}

#[test]
fn extend_columns_of_an_empty_matrix() {
    let none: Matrix<f32> = Matrix::create(0, 3, vec![]);
    assert_eq!(
        Matrix::extend_columns(&none, vec![1., 2.]).unwrap(),
        Matrix::create(0, 4, vec![])
    );
    let no_rows: Matrix<f32> = Matrix::create(2, 0, vec![]);
    assert_eq!(
        Matrix::extend_columns(&no_rows, vec![1., 2.]).unwrap(),
        Matrix::create(2, 1, vec![1., 2.])
    );
}

#[test]
fn extend_columns_refuses_before_it_looks_at_the_row_count() {
    let full: Matrix<f32> = Matrix::create(2, usize::MAX, vec![]);
    assert_eq!(
        Matrix::extend_columns(&full, vec![1.]),
        Err(MatrixExtendOperationError::NotEnoughValuesToExtend)
    );
}

#[test]
fn extend_rows_appends_the_bias_to_a_row() {
    let m: Matrix<f32> = Matrix::from_vec(vec![0.25, -0.5]);
    assert_eq!(
        Matrix::extend_rows(&m, vec![1.]).unwrap(),
        Matrix::create(3, 1, vec![0.25, -0.5, 1.])
    );
}

#[test]
fn extend_rows_uses_only_one_value_for_each_row() {
    let m: Matrix<f32> = Matrix::create(1, 2, vec![1., 2.]);
    assert_eq!(
        Matrix::extend_rows(&m, vec![7., 8., 9.]).unwrap(),
        Matrix::create(2, 2, vec![1., 7., 2., 8.])
    );
}

#[test]
fn extend_rows_of_a_row_without_columns_is_the_value() {
    let m: Matrix<f32> = Matrix::from_vec(vec![]);
    assert_eq!(
        Matrix::extend_rows(&m, vec![1.]).unwrap(),
        Matrix::create(1, 1, vec![1.])
    );
}

#[test]
fn extend_rows_of_a_matrix_without_columns_is_the_column_of_values() {
    let m: Matrix<f32> = Matrix::create(0, 3, vec![]);
    assert_eq!(
        Matrix::extend_rows(&m, vec![9., 8., 7.]).unwrap(),
        Matrix::create(1, 3, vec![9., 8., 7.])
    );
    assert_eq!(
        Matrix::extend_rows(&m, vec![9., 8., 7., 6.]).unwrap(),
        Matrix::create(1, 3, vec![9., 8., 7.])
    );
}

#[test]
fn extend_rows_of_a_matrix_without_rows_has_no_elements() {
    let m: Matrix<f32> = Matrix::create(2, 0, vec![]);
    assert_eq!(
        Matrix::extend_rows(&m, vec![7.]).unwrap(),
        Matrix::create(3, 0, vec![])
    );
    assert_eq!(
        Matrix::extend_rows(&m, vec![]).unwrap(),
        Matrix::create(3, 0, vec![])
    );
}

#[test]
fn extend_rows_refuses_before_it_looks_at_the_matrix() {
    let odd: Matrix<f32> = Matrix::create(usize::MAX, 2, vec![1., 2., 3.]);
    assert_eq!(
        Matrix::extend_rows(&odd, vec![1.]),
        Err(MatrixExtendOperationError::NotEnoughValuesToExtend)
    );
}

#[test]
fn subtraction_refuses_before_it_negates() {
    let c: Matrix<i8> = Matrix::create(2, 1, vec![1, 2]);
    let lowest: Matrix<i8> = Matrix::create(1, 2, vec![i8::MIN, 0]);
    assert_eq!(
        Matrix::subtraction(&c, &lowest),
        Err(MatrixAdditionOperationError::MatricesShapesDoNotMatch)
    );
    let short: Matrix<i8> = Matrix::create(2, 1, vec![i8::MIN]);
    assert_eq!(
        Matrix::subtraction(&c, &short),
        Err(MatrixAdditionOperationError::MatricesHaveDifferentNumberOfElements)
    );
}

#[test]
fn equality_looks_at_shape_size_and_elements() {
    let m: Matrix<f32> = Matrix::create(3, 2, vec![0., 2., 3., 1., 4., 6.]);
    assert!(m == Matrix::create(3, 2, vec![0., 2., 3., 1., 4., 6.]));
    assert!(m != Matrix::create(2, 3, vec![0., 2., 3., 1., 4., 6.]));
    assert!(m != Matrix::create(3, 2, vec![0., 2., 3., 1., 4.]));
    assert!(m != Matrix::create(3, 2, vec![0., 2., 3., 1., 4., 6., 7.]));
    assert!(m != Matrix::create(3, 2, vec![0., 2., 3., 1., 4., 6.5]));
    let nan: Matrix<f32> = Matrix::create(1, 1, vec![f32::NAN]);
    assert!(nan != Matrix::create(1, 1, vec![f32::NAN]));
}

#[test]
fn render_writes_one_line_for_each_row() {
    let m: Matrix<f32> = Matrix::create(3, 2, vec![0., 2., 3., 1., 4.125, -6.]);
    assert_eq!(m.render(), "| 0.00 2.00 3.00 |\n| 1.00 4.12 -6.00 |");
    let empty: Matrix<f32> = Matrix::create(0, 0, vec![]);
    assert_eq!(empty.render(), "| |");
    let single: Matrix<f32> = Matrix::create(0, 0, vec![1.]);
    assert_eq!(single.render(), "| 1.00 |");
}

#[test]
fn render_with_writes_every_element_as_told() {
    let m: Matrix<i32> = Matrix::create(2, 2, vec![1, -2, 30, 4]);
    assert_eq!(m.render_with(|e| format!("<{}>", e)), "| <1> <-2> |\n| <30> <4> |");
    assert_eq!(m.render_with(|e| e.to_string()), "| 1 -2 |\n| 30 4 |");
    assert_eq!(m.render(), "| 1 -2 |\n| 30 4 |");
}

#[test]
fn lay_out_breaks_the_line_after_every_row() {
    let cells: Vec<String> = vec!["a", "b", "c", "d", "e"]
        .into_iter()
        .map(String::from)
        .collect();
    assert_eq!(lay_out(&cells, 2), "| a b |\n| c d |\n| e |");
    assert_eq!(lay_out(&cells, 5), "| a b c d e |");
    assert_eq!(lay_out(&cells, 1), "| a |\n| b |\n| c |\n| d |\n| e |");
    assert_eq!(lay_out(&Vec::new(), 3), "| |");
}
