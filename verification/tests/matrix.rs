use lifegame::matrix::Matrix;

#[test]
fn test_iterrows() {
    let matrix: Matrix<i32> = Matrix::from_slice(&[0, 1, 2, 3, 4, 5], (3, 2));
    let mut rows: Vec<Vec<i32>> = Vec::with_capacity(3);
    for row in matrix.iterrows() {
        rows.push(row);
    }
    assert_eq!(rows, vec![vec![0, 1], vec![2, 3], vec![4, 5]]);
}

#[test]
fn test_itercols() {
    let matrix: Matrix<i32> = Matrix::from_slice(&[0, 1, 2, 3, 4, 5], (3, 2));
    let mut cols: Vec<Vec<i32>> = Vec::with_capacity(2);
    for col in matrix.itercols() {
        cols.push(col);
    }
    assert_eq!(cols, vec![vec![0, 2, 4], vec![1, 3, 5]]);
}

#[test]
fn test_new_fills_with_defaults() {
    let matrix: Matrix<i32> = Matrix::new(2, 3);
    assert_eq!(matrix.shape(), (2, 3));
    assert_eq!(matrix.nrows(), 2);
    assert_eq!(matrix.ncols(), 3);
    assert_eq!(matrix.size(), 6);
    for r in 0..2 {
        for c in 0..3 {
            assert_eq!(*matrix.get(r, c), 0);
        }
    }
}

#[test]
fn test_from_slice_pads_and_truncates() {
    let padded: Matrix<i32> = Matrix::from_slice(&[7], (2, 2));
    assert_eq!(*padded.get(0, 0), 7);
    assert_eq!(*padded.get(0, 1), 0);
    assert_eq!(*padded.get(1, 1), 0);

    let truncated: Matrix<i32> = Matrix::from_slice(&[1, 2, 3, 4, 5], (2, 2));
    assert_eq!(*truncated.get(1, 1), 4);
    assert_eq!(truncated.size(), 4);
}

#[test]
fn test_empty_matrix() {
    let matrix: Matrix<i32> = Matrix::from_slice(&[], (0, 0));
    assert_eq!(matrix.shape(), (0, 0));
    assert_eq!(matrix.size(), 0);
    assert!(matrix.iterrows().is_empty());
    assert!(matrix.itercols().is_empty());
}

#[test]
fn test_can_hold() {
    let small: Matrix<i32> = Matrix::new(2, 3);
    let large: Matrix<i32> = Matrix::new(3, 3);
    assert!(large.can_hold(&small));
    assert!(!small.can_hold(&large));
    assert!(small.can_hold(&small));
}

#[test]
fn test_set_and_get() {
    let mut matrix: Matrix<i32> = Matrix::new(2, 2);
    matrix.set(0, 1, 9);
    matrix.set(1, 0, -4);
    assert_eq!(*matrix.get(0, 1), 9);
    assert_eq!(*matrix.get(1, 0), -4);
    assert_eq!(*matrix.get(0, 0), 0);
}

#[test]
fn test_overwrite_copies_prefix() {
    let source: Matrix<i32> = Matrix::from_slice(&[1, 2, 3, 4], (2, 2));
    let mut target: Matrix<i32> = Matrix::new(2, 3);
    source.overwrite(&mut target);
    // The flat row-major prefix of the target carries the source data.
    assert_eq!(*target.get(0, 0), 1);
    assert_eq!(*target.get(0, 1), 2);
    assert_eq!(*target.get(0, 2), 3);
    assert_eq!(*target.get(1, 0), 4);
    assert_eq!(*target.get(1, 1), 0);
}

#[test]
fn test_wrapping_index_inside() {
    let matrix: Matrix<i32> = Matrix::from_slice(&[0, 1, 2, 3, 4, 5], (2, 3));
    assert_eq!(*matrix.wrapping_index(1, 2), 5);
    assert_eq!(*matrix.wrapping_index(0, 0), 0);
}

#[test]
fn test_wrapping_index_negative_wraps_to_high_end() {
    let matrix: Matrix<i32> = Matrix::from_slice(&[0, 1, 2, 3, 4, 5], (2, 3));
    assert_eq!(*matrix.wrapping_index(-1, -1), 5);
    assert_eq!(*matrix.wrapping_index(-2, -3), 0);
    assert_eq!(*matrix.wrapping_index(-1, 0), 3);
}

#[test]
fn test_wrapping_index_large_magnitude() {
    let matrix: Matrix<i32> = Matrix::from_slice(&[0, 1, 2, 3, 4, 5], (2, 3));
    assert_eq!(*matrix.wrapping_index(1000, 1000), *matrix.get(0, 1));
    assert_eq!(*matrix.wrapping_index(-1001, -1001), *matrix.get(1, 1));
}

#[test]
fn test_map_applies_elementwise() {
    let matrix: Matrix<i32> = Matrix::from_slice(&[0, 1, 2, 3, 4, 5], (3, 2));
    let doubled = matrix.map(|n: i32| n * 2);
    assert_eq!(doubled.shape(), (3, 2));
    for r in 0..3 {
        for c in 0..2 {
            assert_eq!(*doubled.get(r, c), *matrix.get(r, c) * 2);
        }
    }
}
