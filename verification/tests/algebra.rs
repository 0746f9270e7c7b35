use network::matrix::{
    Matrix, MatrixAdditionOperationError, MatrixExtendOperationError,
    MatrixHadamardOperationError, MatrixMultiplicationOperationError,
};

#[test]
fn sum_then_difference_gives_the_first_matrix_back() {
    let a: Matrix<f32> = Matrix::create(3, 2, vec![0., 2., 3., 1., 4., 6.]);
    let b: Matrix<f32> = Matrix::create(3, 2, vec![5.5, 8., 3., 4., 0., 7.]);
    let sum = Matrix::addition(&a, &b).unwrap();
    let back = Matrix::subtraction(&sum, &b).unwrap();
    assert_eq!(back, a);
}

#[test]
fn sum_then_difference_on_integers() {
    let a: Matrix<i64> = Matrix::create(2, 2, vec![1, -2, 3, -4]);
    let b: Matrix<i64> = Matrix::create(2, 2, vec![10, 20, -30, 40]);
    let sum = Matrix::addition(&a, &b).unwrap();
    assert_eq!(sum, Matrix::create(2, 2, vec![11, 18, -27, 36]));
    assert_eq!(Matrix::subtraction(&sum, &b).unwrap(), a);
}

#[test]
fn transposing_twice_gives_the_matrix_back() {
    let m: Matrix<f32> = Matrix::create(3, 2, vec![0., 2., 3., 1., 4., 6.]);
    let twice = Matrix::transposition(&Matrix::transposition(&m));
    assert_eq!(twice, m);
    let row: Matrix<f32> = Matrix::from_vec(vec![1., 2., 3., 4.]);
    assert_eq!(Matrix::transposition(&Matrix::transposition(&row)), row);
    let empty: Matrix<f32> = Matrix::create(0, 0, vec![]);
    assert_eq!(Matrix::transposition(&Matrix::transposition(&empty)), empty);
}

#[test]
fn product_is_associative_on_small_integers() {
    let a: Matrix<f32> = Matrix::create(3, 2, vec![2., 3., 4., 1., 0., -1.]);
    let b: Matrix<f32> = Matrix::create(2, 3, vec![0., 5., 1., -2., 3., 1.]);
    let c: Matrix<f32> = Matrix::create(2, 2, vec![1., 2., -1., 4.]);
    let left = Matrix::matrix_multiplication(
        &Matrix::matrix_multiplication(&a, &b).unwrap(),
        &c,
    )
    .unwrap();
    let right = Matrix::matrix_multiplication(
        &a,
        &Matrix::matrix_multiplication(&b, &c).unwrap(),
    )
    .unwrap();
    assert_eq!(left, right);
    assert_eq!(left, Matrix::create(2, 2, vec![7., 62., -7., 10.]));
}

#[test]
fn product_is_associative_within_tolerance() {
    let a: Matrix<f32> = Matrix::create(2, 2, vec![0.1, 0.7, -1.3, 2.9]);
    let b: Matrix<f32> = Matrix::create(2, 2, vec![3.3, -0.2, 0.6, 1.1]);
    let c: Matrix<f32> = Matrix::create(2, 2, vec![-0.9, 0.4, 2.2, 0.3]);
    let left = Matrix::matrix_multiplication(
        &Matrix::matrix_multiplication(&a, &b).unwrap(),
        &c,
    )
    .unwrap();
    let right = Matrix::matrix_multiplication(
        &a,
        &Matrix::matrix_multiplication(&b, &c).unwrap(),
    )
    .unwrap();
    assert_eq!((left.cols, left.rows), (right.cols, right.rows));
    for i in 0..4 {
        assert!((left.elements[i] - right.elements[i]).abs() < 1e-5);
    }
}

#[test]
fn hadamard_does_not_depend_on_the_order() {
    let a: Matrix<f32> = Matrix::create(3, 2, vec![0., 2., 3., 1., 4., 6.]);
    let b: Matrix<f32> = Matrix::create(3, 2, vec![5.2, 8., 3., 4., 0., 7.]);
    assert_eq!(
        Matrix::hadamard(&a, &b).unwrap(),
        Matrix::hadamard(&b, &a).unwrap()
    );
    let c: Matrix<f32> = Matrix::create(2, 3, vec![5.2, 8., 3., 4., 0., 7.]);
    assert_eq!(Matrix::hadamard(&a, &c), Matrix::hadamard(&c, &a));
}

#[test]
fn shape_is_checked_before_size() {
    let a: Matrix<f32> = Matrix::create(3, 2, vec![0., 2., 3., 1., 4., 6.]);
    let b: Matrix<f32> = Matrix::create(2, 3, vec![5.2, 8., 3.]);
    assert_eq!(
        Matrix::addition(&a, &b),
        Err(MatrixAdditionOperationError::MatricesShapesDoNotMatch)
    );
    assert_eq!(
        Matrix::subtraction(&a, &b),
        Err(MatrixAdditionOperationError::MatricesShapesDoNotMatch)
    );
    assert_eq!(
        Matrix::hadamard(&a, &b),
        Err(MatrixHadamardOperationError::MatricesShapesDoNotMatch)
    );
    let rows_differ: Matrix<f32> = Matrix::create(3, 1, vec![0., 2., 3.]);
    assert_eq!(
        Matrix::addition(&a, &rows_differ),
        Err(MatrixAdditionOperationError::MatricesShapesDoNotMatch)
    );
}

#[test]
fn product_refuses_every_inner_mismatch() {
    let a: Matrix<f32> = Matrix::create(3, 2, vec![2., 3., 4., 1., 0., 0.]);
    for rows in [0usize, 1, 2, 4, 5] {
        let b: Matrix<f32> = Matrix::create(1, rows, vec![1.; rows]);
        assert_eq!(
            Matrix::matrix_multiplication(&a, &b),
            Err(MatrixMultiplicationOperationError::LeftMatrixColumnsDoNotEqualRightMatrixRows)
        );
    }
    let fits: Matrix<f32> = Matrix::create(1, 3, vec![1., 1., 1.]);
    assert_eq!(
        Matrix::matrix_multiplication(&a, &fits).unwrap(),
        Matrix::create(1, 2, vec![9., 1.])
    );
}

#[test]
fn extending_refuses_too_few_values() {
    let m: Matrix<f32> = Matrix::create(3, 2, vec![2., 3., 4., 1., 0., 0.]);
    for given in 0..3usize {
        assert_eq!(
            Matrix::extend_columns(&m, vec![9.; given]),
            Err(MatrixExtendOperationError::NotEnoughValuesToExtend)
        );
    }
    for given in 0..2usize {
        assert_eq!(
            Matrix::extend_rows(&m, vec![9.; given]),
            Err(MatrixExtendOperationError::NotEnoughValuesToExtend)
        );
    }
    assert!(Matrix::extend_columns(&m, vec![9.; 3]).is_ok());
    assert!(Matrix::extend_rows(&m, vec![9.; 2]).is_ok());
}

#[test]
fn sum_then_difference_loses_what_the_sum_rounded_away() {
    let a: Matrix<f32> = Matrix::create(1, 1, vec![1.]);
    let b: Matrix<f32> = Matrix::create(1, 1, vec![1.0e10]);
    let sum = Matrix::addition(&a, &b).unwrap();
    assert_eq!(sum, b);
    let back = Matrix::subtraction(&sum, &b).unwrap();
    assert_eq!(back, Matrix::create(1, 1, vec![0.]));
}
