use fixed_matrix::Matrix;
use fixed_matrix::MatrixSlice;

#[test]
fn get_by_index() {
    let a = Matrix::<5>::new([1, 2, 3, 4, 5]);
    assert_eq!(a.get_by_index(0), &1);
}

#[test]
fn size() {
    let a = Matrix::<5>::new([1, 2, 3, 4, 5]);
    assert_eq!(a.size(), 5);
}

#[test]
fn add_to_each_item() {
    let mut a = Matrix::<3>::new([1, 2, 3]);
    a.add_to_each_item(1);
    assert_eq!(a.get_items(), &[2, 3, 4]);
}

#[test]
fn matrix_summary() {
    assert_eq!(6, Matrix::<3>::new([1, 2, 3]).summary());
}

#[test]
fn matrix_multiply() {
    assert_eq!(120, Matrix::<5>::new([1, 2, 3, 4, 5]).multiply());
}

#[test]
fn mul_to_each_item() {
    let mut a = Matrix::<3>::new([1, 2, 3]);
    a.mul_to_each_item(2);
    assert_eq!(a.get_items(), &[2, 4, 6]);
}

#[test]
fn get_matrix_by_index() {
    let result_matrix = Matrix::<5>::new([6, 7, 8, 9, 10]);
    let first = Matrix::<5>::new([1, 2, 3, 4, 5]);
    let third = Matrix::<5>::new([11, 12, 13, 14, 15]);
    let result_matrix_ref: &Matrix<5> = {
        let refs: [&Matrix<5>; 3] = [&first, &result_matrix, &third];
        let t = MatrixSlice::new(&refs);
        t.get_matrix_by_index(1)
    };
    assert_eq!(result_matrix_ref.get_items(), result_matrix.get_items());
}

#[test]
fn matrix_slice_summary() {
    let a = Matrix::<5>::new([1, 2, 3, 4, 5]);
    let b = Matrix::<5>::new([6, 7, 8, 9, 10]);
    let c = Matrix::<5>::new([11, 12, 13, 14, 15]);
    let refs: [&Matrix<5>; 3] = [&a, &b, &c];
    let t = MatrixSlice::new(&refs);
    assert_eq!(120, t.summary());
}

#[test]
fn matrix_slice_multiply() {
    let a = Matrix::<5>::new([1, 2, 3, 4, 5]);
    let b = Matrix::<5>::new([6, 7, 8, 9, 10]);
    let refs: [&Matrix<5>; 2] = [&a, &b];
    let t = MatrixSlice::new(&refs);
    assert_eq!(3_628_800, t.multiply());
}
