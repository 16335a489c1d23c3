use algea::column_major;
use algea::row_major;
use algea::Vector;

#[test]
fn row_major_storage_round_trips() {
    let m = row_major::Matrix::from_rows([[1i32, 2, 3], [4, 5, 6]]);
    assert_eq!(m.to_rows(), [[1, 2, 3], [4, 5, 6]]);
    assert_eq!(*m.index(1, 2), 6);
    let vecs = m.to_row_vecs();
    assert_eq!(vecs[0].to_array(), [1, 2, 3]);
    assert_eq!(row_major::Matrix::from_row_vecs(vecs), m);
    let raw: [[i32; 3]; 2] = m.into();
    assert_eq!(raw, [[1, 2, 3], [4, 5, 6]]);
    assert_eq!(row_major::Matrix::from(raw), m);
}

#[test]
fn column_major_storage_round_trips() {
    let m = column_major::Matrix::from_columns([[1u32, 2], [3, 4], [5, 6]]);
    // Two rows and three columns: row 1, column 2 is the second lane of the third column.
    assert_eq!(*m.index(1, 2), 6);
    assert_eq!(m.to_columns(), [[1, 2], [3, 4], [5, 6]]);
    let vecs = m.to_column_vecs();
    assert_eq!(vecs[2].to_array(), [5, 6]);
    assert_eq!(column_major::Matrix::from_column_vecs(vecs), m);
}

#[test]
fn transposition() {
    let m = row_major::Matrix::from_rows([[1i64, 2, 3], [4, 5, 6]]);
    let t = m.transpose();
    assert_eq!(t.to_rows(), [[1, 4], [2, 5], [3, 6]]);
    assert_eq!(t.transpose(), m);

    let c = m.to_column_major_transposed();
    assert_eq!(c.to_columns(), [[1, 2, 3], [4, 5, 6]]);
    assert_eq!(*c.index(2, 1), 6);
    assert_eq!(c.to_row_major_transposed(), m);

    let cm = column_major::Matrix::from_columns([[1u64, 2], [3, 4]]);
    assert_eq!(cm.transpose().to_columns(), [[1, 3], [2, 4]]);
}

#[test]
fn identity_and_diagonal() {
    let i = row_major::Matrix::<i32, 3, 3>::identity();
    assert_eq!(i.to_rows(), [[1, 0, 0], [0, 1, 0], [0, 0, 1]]);
    let c = column_major::Matrix::<u32, 2, 2>::identity();
    assert_eq!(c.to_columns(), [[1, 0], [0, 1]]);
    let m = row_major::Matrix::from_rows([[1i32, 2], [3, 4]]);
    assert_eq!(m.diagonal().to_array(), [1, 4]);
    assert_eq!(column_major::Matrix::from_columns([[7u64, 8], [9, 10]]).diagonal().to_array(), [7, 10]);
}

#[test]
fn element_wise_matrix_arithmetic() {
    let a = row_major::Matrix::from_rows([[1i32, 2], [3, i32::MAX]]);
    let b = row_major::Matrix::from_rows([[10i32, 20], [30, 1]]);
    assert_eq!((a + b).to_rows(), [[11, 22], [33, i32::MIN]]);
    assert_eq!((b - a).to_rows(), [[9, 18], [27, i32::MIN + 2]]);
    assert_eq!((-a).to_rows(), [[-1, -2], [-3, -i32::MAX]]);
    assert_eq!((a + 1).to_rows(), [[2, 3], [4, i32::MIN]]);
    assert_eq!((b * 2).to_rows(), [[20, 40], [60, 2]]);
    assert_eq!((b / 3).to_rows(), [[3, 6], [10, 0]]);
    assert_eq!((b - 10).to_rows(), [[0, 10], [20, -9]]);
    assert_eq!((100 - b).to_rows(), [[90, 80], [70, 99]]);
    assert_eq!((60 / b).to_rows(), [[6, 3], [2, 60]]);
    assert_eq!((2u32 * column_major::Matrix::from_columns([[1u32, 2]])).to_columns(), [[2, 4]]);

    let mut m = b;
    m += a;
    m -= 1;
    m *= 2;
    m -= b;
    m += 5;
    assert_eq!(m.to_rows(), [[15, 27], [39, 2]]);
}

#[test]
fn constructors_casts_and_updates() {
    assert_eq!(row_major::Matrix::<u32, 2, 3>::zero().to_rows(), [[0; 3]; 2]);
    assert_eq!(column_major::Matrix::<i64, 2, 2>::one().to_columns(), [[1, 1], [1, 1]]);
    assert_eq!(row_major::Matrix::<i32, 1, 2>::filled(-4).to_rows(), [[-4, -4]]);
    assert_eq!(row_major::Matrix::<i64, 2, 1>::default().to_rows(), [[0], [0]]);

    let m = row_major::Matrix::from_rows([[-1i32, 300], [2, 3]]);
    assert_eq!(m.cast::<u32>().to_rows(), [[u32::MAX, 300], [2, 3]]);
    assert_eq!(m.cast::<i64>().to_rows(), [[-1, 300], [2, 3]]);

    let mut n = m;
    n.set(0, 1, 9);
    assert_eq!(n.to_rows(), [[-1, 9], [2, 3]]);
    assert!(n != m);
    let mut c = column_major::Matrix::<u64, 2, 2>::zero();
    c.set(1, 0, 5);
    assert_eq!(c.to_columns(), [[0, 5], [0, 0]]);
}

#[test]
fn sums_of_matrices() {
    let ms = [
        row_major::Matrix::from_rows([[1u32, 2]]),
        row_major::Matrix::from_rows([[3u32, u32::MAX]]),
    ];
    assert_eq!(row_major::Matrix::sum(&ms).to_rows(), [[4, 1]]);
    assert_eq!(row_major::Matrix::<u32, 1, 2>::sum(&[]).to_rows(), [[0, 0]]);
    let cs = [column_major::Matrix::from_columns([[1i64], [2]]); 3];
    assert_eq!(column_major::Matrix::sum(&cs).to_columns(), [[3], [6]]);
}

#[test]
fn matrices_hold_vectors_in_their_orientation() {
    let rows = [Vector::from_array([1i32, 2]), Vector::from_array([3, 4])];
    let r = row_major::Matrix::from_row_vecs(rows);
    let c = column_major::Matrix::from_column_vecs(rows);
    assert_eq!(*r.index(0, 1), 2);
    assert_eq!(*c.index(0, 1), 3);
    assert_eq!(r.transpose().to_rows(), [[1, 3], [2, 4]]);
    assert_eq!(c.to_row_major_transposed(), r);
}

#[test]
fn matrix_division_in_place() {
    let mut m = row_major::Matrix::from_rows([[9u32, 10], [11, 12]]);
    m.div_assign(3);
    assert_eq!(m.to_rows(), [[3, 3], [3, 4]]);
    let mut c = column_major::Matrix::from_columns([[-9i32, 9]]);
    c.div_assign(-2);
    assert_eq!(c.to_columns(), [[4, -4]]);
}

#[test]
fn matrix_elements_borrowed_mutably() {
    let mut m = row_major::Matrix::from_rows([[1i32, 2], [3, 4]]);
    *m.index_mut(1, 0) = 30;
    assert_eq!(m.to_rows(), [[1, 2], [30, 4]]);
    let mut c = column_major::Matrix::from_columns([[1u64, 2], [3, 4]]);
    *c.index_mut(1, 0) = 20;
    assert_eq!(c.to_columns(), [[1, 20], [3, 4]]);
    assert_eq!(*c.index(1, 0), 20);
}
