use diffsol_py::convert::{vec_v_to_pyarray, set_vec_v_from_py, RowMajor};

#[test]
fn test_vec_v_to_pyarray() {
    let mut rows: Vec<Vec<f64>> = Vec::new();

    // Initially test empty case
    {
        let arr = vec_v_to_pyarray(&rows);
        assert_eq!(arr.nrows, 0);
        assert_eq!(arr.ncols, 0);
        assert_eq!(arr.data, Vec::<f64>::new());
    }

    // Check that a 3x1 addition ends up as a 1 new row of 3 columns.
    {
        rows.push(vec![1.0, 2.0, 3.0]);
        let arr = vec_v_to_pyarray(&rows);
        assert_eq!(arr.nrows, 1);
        assert_eq!(arr.ncols, 3);
        assert_eq!(arr.data, vec![1.0, 2.0, 3.0]);
    }

    // Edge case of adding 2x1 afterwards results in 2 rows of 2 columns
    // because the conversion avoids overrunning the minimum col length.
    {
        rows.push(vec![4.0, 5.0]);
        let arr = vec_v_to_pyarray(&rows);
        assert_eq!(arr.nrows, 2);
        assert_eq!(arr.ncols, 2);
        assert_eq!(arr.data, vec![1.0, 2.0, 4.0, 5.0]);
    }
}

#[test]
fn vec_v_to_pyarray_keeps_rectangular_input() {
    let rows = vec![vec![1.0, 2.0], vec![3.0, 4.0], vec![5.0, 6.0]];
    let arr = vec_v_to_pyarray(&rows);
    assert_eq!(arr.nrows, 3);
    assert_eq!(arr.ncols, 2);
    assert_eq!(arr.data, vec![1.0, 2.0, 3.0, 4.0, 5.0, 6.0]);
    assert_eq!(*arr.at(0, 0), 1.0);
    assert_eq!(*arr.at(1, 1), 4.0);
    assert_eq!(*arr.at(2, 0), 5.0);
}

#[test]
fn vec_v_to_pyarray_empty_row_truncates_all() {
    let rows = vec![vec![1.0, 2.0], Vec::<f64>::new()];
    let arr = vec_v_to_pyarray(&rows);
    assert_eq!(arr.nrows, 2);
    assert_eq!(arr.ncols, 0);
    assert_eq!(arr.data, Vec::<f64>::new());
}

#[test]
fn row_major_at_reads_by_row_then_column() {
    let arr = RowMajor { data: vec![10u64, 11, 12, 13, 14, 15], nrows: 2, ncols: 3 };
    assert_eq!(*arr.at(0, 2), 12);
    assert_eq!(*arr.at(1, 0), 13);
}

#[test]
fn set_vec_v_from_py_replaces_when_all_rows_read() {
    let mut target: Vec<Vec<f64>> = vec![vec![9.0]];
    let items = vec![Some(vec![1.0, 2.0]), Some(vec![3.0])];
    let ok = set_vec_v_from_py(&mut target, items);
    assert!(ok);
    assert_eq!(target, vec![vec![1.0, 2.0], vec![3.0]]);
}

#[test]
fn set_vec_v_from_py_keeps_target_on_any_bad_row() {
    let mut target: Vec<Vec<f64>> = vec![vec![9.0]];
    let items = vec![Some(vec![1.0, 2.0]), None, Some(vec![3.0])];
    let ok = set_vec_v_from_py(&mut target, items);
    assert!(!ok);
    assert_eq!(target, vec![vec![9.0]]);
}

#[test]
fn set_vec_v_from_py_accepts_no_rows() {
    let mut target: Vec<Vec<f64>> = vec![vec![9.0]];
    let ok = set_vec_v_from_py(&mut target, Vec::new());
    assert!(ok);
    assert_eq!(target, Vec::<Vec<f64>>::new());
}
