use mat73::{array, Dataset, MatVar, Matrix};

fn dense(matrix: &Matrix<f64>) -> nalgebra::DMatrix<f64> {
    nalgebra::DMatrix::from_fn(matrix.n_row(), matrix.n_column(), |i, j| {
        *matrix.get(i, j).unwrap()
    })
}

#[test]
fn array_to_matrix() {
    let w = Dataset {
        name: "/w".to_string(),
        shape: vec![2, 3],
        data: Ok(vec![0., -6., -2., 1., 56., 1.]),
    };
    let var: Matrix<f64> = array("w", Some(w)).unwrap().into_matrix();
    assert_eq!(
        dense(&var),
        nalgebra::DMatrix::from_column_slice(3, 2, &[0., -6., -2., 1., 56., 1.])
    )
}

#[test]
fn matrix_reads_row_by_row() {
    let var = MatVar::new("w".to_string(), vec![2, 3], vec![0, -6, -2, 1, 56, 1]).unwrap();
    let m = var.into_matrix();
    assert_eq!(m.n_row(), 3);
    assert_eq!(m.n_column(), 2);
    let rows: Vec<Vec<i32>> = (0..3usize)
        .map(|i| (0..2usize).map(|j| *m.get(i, j).unwrap()).collect())
        .collect();
    assert_eq!(rows, vec![vec![0, 1], vec![-6, 56], vec![-2, 1]]);
}

#[test]
fn entry_is_taken_column_by_column() {
    let data: Vec<usize> = (100..112).collect();
    let var = MatVar::new("a".to_string(), vec![4, 3], data.clone()).unwrap();
    let c: usize = var.n_column();
    let r: usize = var.n_row();
    assert_eq!((c, r), (4, 3));
    let m = var.into_matrix();
    assert_eq!((m.n_row(), m.n_column()), (r, c));
    for i in 0..r {
        for j in 0..c {
            assert_eq!(m.get(i, j), Some(&data[j * r + i]));
        }
    }
}

#[test]
fn matrix_agrees_with_nalgebra() {
    let data: Vec<f64> = (0..20).map(|k| k as f64 * 1.5).collect();
    let var = MatVar::new("a".to_string(), vec![5, 4], data.clone()).unwrap();
    let m = var.into_matrix();
    let expected = nalgebra::DMatrix::from_column_slice(4, 5, &data);
    assert_eq!(dense(&m), expected);
    assert_eq!(m.raw(), expected.as_slice().to_vec());
}

#[test]
fn get_outside_the_matrix_gives_nothing() {
    let m = Matrix::from_column_major(3, 2, vec![1, 2, 3, 4, 5, 6]).unwrap();
    assert_eq!(m.get(2, 1), Some(&6));
    assert_eq!(m.get(0, 1), Some(&4));
    assert_eq!(m.get(1, 0), Some(&2));
    assert_eq!(m.get(3, 0), None);
    assert_eq!(m.get(0, 2), None);
    assert_eq!(m.get(usize::MAX, usize::MAX), None);
}

#[test]
fn from_column_major_wants_every_place_filled() {
    assert!(Matrix::from_column_major(3, 2, vec![1, 2, 3, 4, 5]).is_none());
    assert!(Matrix::from_column_major(3, 2, vec![1, 2, 3, 4, 5, 6, 7]).is_none());
    assert!(Matrix::from_column_major(usize::MAX, 2, vec![1, 2]).is_none());
    assert!(Matrix::from_column_major(0, 0, vec![1]).is_none());
}

#[test]
fn matrix_without_places() {
    let m = Matrix::from_column_major(0, 4, Vec::<u8>::new()).unwrap();
    assert_eq!((m.n_row(), m.n_column()), (0, 4));
    assert_eq!(m.get(0, 0), None);
    let m = Matrix::from_column_major(4, 0, Vec::<u8>::new()).unwrap();
    assert_eq!((m.n_row(), m.n_column()), (4, 0));
    assert_eq!(m.get(0, 0), None);
}

#[test]
fn single_column_and_single_row() {
    let column = Matrix::from_column_major(3, 1, vec![7, 8, 9]).unwrap();
    assert_eq!(column.get(2, 0), Some(&9));
    let row = Matrix::from_column_major(1, 3, vec![7, 8, 9]).unwrap();
    assert_eq!(row.get(0, 2), Some(&9));
    assert_eq!(row.raw(), vec![7, 8, 9]);
}
