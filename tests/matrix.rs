use complex_numbers::matrix::{Matrice, MatrixError};

fn grid(rows: &[&[i64]]) -> Matrice<i64> {
    let data: Vec<Vec<i64>> = rows.iter().map(|r| r.to_vec()).collect();
    let width = if data.is_empty() { 0 } else { data[0].len() };
    Matrice { height: data.len(), width, data }
}

fn scenario_matrix() -> Matrice<i64> {
    grid(&[
        &[2, 1, 1, 0, 4],
        &[6, 3, 0, 0, 4],
        &[6, 3, 1, 3, 4],
        &[2, 1, 0, 1, 4],
        &[4, 3, 0, 2, 3],
    ])
}

fn product(a: &Matrice<i64>, b: &Matrice<i64>) -> Vec<Vec<i64>> {
    let mut out = vec![vec![0i64; b.width]; a.height];
    for x in 0..a.height {
        for y in 0..b.width {
            for k in 0..a.width {
                out[x][y] += a.data[x][k] * b.data[k][y];
            }
        }
    }
    out
}

#[test]
fn new_fills_with_default() {
    let m = Matrice::<i32>::new(2, 3);
    assert_eq!(m.height, 2);
    assert_eq!(m.width, 3);
    assert_eq!(m.data, vec![vec![0, 0, 0], vec![0, 0, 0]]);
}

#[test]
fn new_zero_fills_with_zero() {
    let m = Matrice::<u64>::new_zero(3, 1);
    assert_eq!(m.height, 3);
    assert_eq!(m.width, 1);
    assert_eq!(m.data, vec![vec![0], vec![0], vec![0]]);
    let empty = Matrice::<i64>::new_zero(0, 4);
    assert!(empty.data.is_empty());
}

#[test]
fn identitymat_has_ones_on_the_diagonal() {
    let m = Matrice::<i32>::identitymat(3);
    assert_eq!(m.data, vec![vec![1, 0, 0], vec![0, 1, 0], vec![0, 0, 1]]);
}

#[test]
fn minor_drops_row_and_column() {
    let m = grid(&[&[1, 2, 3], &[4, 5, 6], &[7, 8, 9]]);
    let c = m.minor(1, 1);
    assert_eq!((c.height, c.width), (2, 2));
    assert_eq!(c.data, vec![vec![1, 3], vec![7, 9]]);
    assert_eq!(m.minor(0, 0).data, vec![vec![5, 6], vec![8, 9]]);
    assert_eq!(m.minor(2, 2).data, vec![vec![1, 2], vec![4, 5]]);
    assert_eq!(m.minor(0, 2).data, vec![vec![4, 5], vec![7, 8]]);
}

#[test]
fn minor_holds_nothing_from_the_deleted_row_or_column() {
    let m = grid(&[&[11, 12, 13, 14], &[21, 22, 23, 24], &[31, 32, 33, 34]]);
    for i in 0..3 {
        for j in 0..4 {
            let c = m.minor(i, j);
            assert_eq!((c.height, c.width), (2, 3));
            for row in &c.data {
                for v in row {
                    assert_ne!(*v / 10, i as i64 + 1);
                    assert_ne!(*v % 10, j as i64 + 1);
                }
            }
        }
    }
}

#[test]
fn minor_of_a_one_by_one_matrix_is_empty() {
    let m = grid(&[&[5]]);
    let c = m.minor(0, 0);
    assert_eq!((c.height, c.width), (0, 0));
    assert!(c.data.is_empty());
}

#[test]
fn det_of_small_matrices() {
    assert_eq!(grid(&[&[7]]).det(), 7);
    assert_eq!(grid(&[&[1, 2], &[3, 4]]).det(), -2);
    assert_eq!(grid(&[&[1, 2, 3], &[4, 5, 6], &[7, 8, 10]]).det(), -3);
    assert_eq!(grid(&[&[2, 0, 1], &[1, 3, 2], &[1, 1, 1]]).det(), 0);
    assert_eq!(Matrice::<i64>::new_zero(0, 0).det(), 1);
}

#[test]
fn det_of_the_five_by_five_matrix() {
    assert_eq!(scenario_matrix().det(), 64);
}

#[test]
fn det_of_identity_is_one() {
    for n in 0..7 {
        assert_eq!(Matrice::<i64>::identitymat(n).det(), 1);
        assert_eq!(Matrice::<u32>::identitymat(n).det(), 1);
    }
}

#[test]
fn det_with_a_zero_row_is_zero() {
    let m = grid(&[&[1, 2, 3, 4], &[5, 6, 7, 8], &[0, 0, 0, 0], &[9, 1, 2, 3]]);
    assert_eq!(m.det(), 0);
    let first = grid(&[&[0, 0, 0], &[4, 5, 6], &[7, 8, 9]]);
    assert_eq!(first.det(), 0);
    let two = grid(&[&[3, 4], &[0, 0]]);
    assert_eq!(two.det(), 0);
}

#[test]
fn det_wraps_on_unsigned_elements() {
    let m = Matrice::<u32> { height: 2, width: 2, data: vec![vec![1, 2], vec![3, 4]] };
    assert_eq!(m.det(), u32::MAX - 1);
}

#[test]
fn trans_swaps_rows_and_columns() {
    let m = grid(&[&[1, 2, 3], &[4, 5, 6]]);
    let t = m.trans();
    assert_eq!((t.height, t.width), (3, 2));
    assert_eq!(t.data, vec![vec![1, 4], vec![2, 5], vec![3, 6]]);
}

#[test]
fn adjugate_times_matrix_is_det_times_identity() {
    let m = scenario_matrix();
    let adj = m.adjugate();
    assert_eq!(
        adj.data,
        vec![
            vec![-19, 17, 19, 7, -32],
            vec![30, -10, -30, -38, 64],
            vec![48, -16, 16, -48, 0],
            vec![-16, -16, 16, 16, 0],
            vec![6, -2, -6, 18, 0],
        ]
    );
    let scaled: Vec<Vec<i64>> = (0..5)
        .map(|x| (0..5).map(|y| if x == y { 64 } else { 0 }).collect())
        .collect();
    assert_eq!(product(&m, &adj), scaled);
    assert_eq!(product(&adj, &m), scaled);
}

#[test]
fn adjugate_of_small_matrices() {
    assert_eq!(grid(&[&[9]]).adjugate().data, vec![vec![1]]);
    assert_eq!(grid(&[&[1, 2], &[3, 4]]).adjugate().data, vec![vec![4, -2], vec![-3, 1]]);
}

#[test]
fn add_sums_cell_by_cell() {
    let a = grid(&[&[1, 2], &[3, 4]]);
    let b = grid(&[&[10, 20], &[30, 40]]);
    let s = a.add(&b).unwrap();
    assert_eq!((s.height, s.width), (2, 2));
    assert_eq!(s.data, vec![vec![11, 22], vec![33, 44]]);
}

#[test]
fn add_is_commutative_and_associative() {
    let a = grid(&[&[1, -2, 3], &[4, 5, -6]]);
    let b = grid(&[&[7, 8, 9], &[-1, 0, 2]]);
    let c = grid(&[&[3, 3, -3], &[5, 1, 1]]);
    assert_eq!(a.add(&b).unwrap().data, b.add(&a).unwrap().data);
    let left = a.add(&b).unwrap().add(&c).unwrap();
    let right = a.add(&b.add(&c).unwrap()).unwrap();
    assert_eq!(left.data, right.data);
    assert_eq!(left.data, vec![vec![11, 9, 9], vec![8, 6, -3]]);
}

#[test]
fn add_refuses_mismatched_shapes() {
    let a = grid(&[&[1, 2], &[3, 4]]);
    let b = grid(&[&[1, 2, 3], &[4, 5, 6]]);
    let c = grid(&[&[1, 2]]);
    assert!(matches!(a.add(&b), Err(MatrixError::ShapeMismatch)));
    assert!(matches!(b.add(&a), Err(MatrixError::ShapeMismatch)));
    assert!(matches!(a.add(&c), Err(MatrixError::ShapeMismatch)));
}

#[test]
fn add_wraps_on_overflow() {
    let a = Matrice::<i32> { height: 1, width: 1, data: vec![vec![i32::MAX]] };
    let b = Matrice::<i32> { height: 1, width: 1, data: vec![vec![1]] };
    assert_eq!(a.add(&b).unwrap().data, vec![vec![i32::MIN]]);
}

#[test]
fn replace_column_with_overwrites_a_prefix() {
    let m = grid(&[&[1, 2], &[3, 4], &[5, 6]]);
    assert_eq!(m.replace_column_with(1, vec![7, 8]).data, vec![vec![1, 7], vec![3, 8], vec![5, 6]]);
    assert_eq!(
        m.replace_column_with(0, vec![7, 8, 9, 10]).data,
        vec![vec![7, 2], vec![8, 4], vec![9, 6]]
    );
    assert_eq!(m.replace_column_with(0, vec![]).data, m.data);
}

#[test]
fn replace_line_with_overwrites_a_prefix() {
    let m = grid(&[&[1, 2, 3], &[4, 5, 6]]);
    assert_eq!(m.replace_line_with(1, vec![9]).data, vec![vec![1, 2, 3], vec![9, 5, 6]]);
    assert_eq!(m.replace_line_with(0, vec![7, 8, 9, 10]).data, vec![vec![7, 8, 9], vec![4, 5, 6]]);
}

#[test]
fn from_rows_pads_with_fill_rows() {
    let m = Matrice::from_rows(3, 2, vec![vec![1i64, 2]], 0).unwrap();
    assert_eq!((m.height, m.width), (3, 2));
    assert_eq!(m.data, vec![vec![1, 2], vec![0, 0], vec![0, 0]]);
    let full = Matrice::from_rows(1, 2, vec![vec![5u32, 6]], 9).unwrap();
    assert_eq!(full.data, vec![vec![5, 6]]);
    let empty = Matrice::from_rows(2, 1, Vec::<Vec<i32>>::new(), 4).unwrap();
    assert_eq!(empty.data, vec![vec![4], vec![4]]);
}

#[test]
fn from_rows_refuses_seed_that_does_not_fit() {
    let too_many = Matrice::from_rows(1, 2, vec![vec![1i64, 2], vec![3, 4]], 0);
    assert!(matches!(too_many, Err(MatrixError::MalformedConstruction)));
    let too_wide = Matrice::from_rows(2, 2, vec![vec![1i64, 2, 3]], 0);
    assert!(matches!(too_wide, Err(MatrixError::MalformedConstruction)));
    let too_short = Matrice::from_rows(2, 2, vec![vec![1i64]], 0);
    assert!(matches!(too_short, Err(MatrixError::MalformedConstruction)));
}
