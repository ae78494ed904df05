use lin::vector::Vector2;
use lin::vector::Vector3;
use lin::vector::Vector4;
use lin::vector::Vector5;
use lin::matrix::Matrix2;
use lin::matrix::Matrix3;
use lin::matrix::Matrix4;
use lin::Columnar;
use lin::Tabular;

#[test]
fn test_vector_has_one_column() {
    let v = Vector3 { x: 1, y: 2, z: 3 };
    assert_eq!(v.ncols(), 1);
    assert_eq!(v.column(0), Some(v));
    assert_eq!(v.column(1), None);
    assert_eq!(v.column(3), None);
    assert_eq!(v.column(usize::MAX), None);
}

#[test]
fn test_column_mut_borrows_the_vector() {
    let mut v = Vector2 { x: 1, y: 2 };
    if let Some(column) = v.column_mut(0) {
        column.y = 20;
    }
    assert_eq!(v, Vector2 { x: 1, y: 20 });
    assert!(v.column_mut(1).is_none());
    assert_eq!(v, Vector2 { x: 1, y: 20 });
}

#[test]
fn test_vector_has_one_row_per_component() {
    assert_eq!(Vector2 { x: 0, y: 0 }.nrows(), 2);
    assert_eq!(Vector3 { x: 0, y: 0, z: 0 }.nrows(), 3);
    assert_eq!(Vector4 { x: 0, y: 0, z: 0, w: 0 }.nrows(), 4);
    assert_eq!(Vector5 { x: 0, y: 0, z: 0, w: 0, a: 0 }.nrows(), 5);
}

#[test]
fn test_row_is_the_component() {
    let v = Vector4 { x: 10, y: 20, z: 30, w: 40 };
    assert_eq!(v.row(0), Some(10));
    assert_eq!(v.row(1), Some(20));
    assert_eq!(v.row(2), Some(30));
    assert_eq!(v.row(3), Some(40));
    assert_eq!(v.row(4), None);
    assert_eq!(v.row(usize::MAX), None);
    let u = Vector2 { x: 1, y: 2 };
    assert_eq!(u.row(1), Some(2));
    assert_eq!(u.row(2), None);
    let w = Vector5 { x: 1, y: 2, z: 3, w: 4, a: 5 };
    assert_eq!(w.row(4), Some(5));
    assert_eq!(w.row(5), None);
}

#[test]
fn test_row_mut_writes_one_component() {
    let mut v = Vector3 { x: 1, y: 2, z: 3 };
    *v.row_mut(2).unwrap() = 30;
    assert_eq!(v, Vector3 { x: 1, y: 2, z: 30 });
    assert!(v.row_mut(3).is_none());
    assert_eq!(v, Vector3 { x: 1, y: 2, z: 30 });
}

#[test]
fn test_cols_iter_hands_out_the_vector_once() {
    let v = Vector3 { x: 1, y: 2, z: 3 };
    let mut columns = v.cols_iter();
    assert_eq!(columns.next(), Some(v));
    assert_eq!(columns.next(), None);
    assert_eq!(columns.next(), None);
}

#[test]
fn test_rows_iter_walks_the_components() {
    let v = Vector5 { x: 5, y: 4, z: 3, w: 2, a: 1 };
    let mut rows = v.rows_iter();
    let mut seen = vec![];
    while let Some(row) = rows.next() {
        seen.push(row);
    }
    assert_eq!(seen, vec![5, 4, 3, 2, 1]);
    assert_eq!(rows.next(), None);
    assert_eq!(rows.next(), None);
}

#[test]
fn test_passes_can_be_started_again() {
    let v = Vector2 { x: 8, y: 9 };
    let mut first = v.rows_iter();
    assert_eq!(first.next(), Some(8));
    let mut second = v.rows_iter();
    assert_eq!(second.next(), Some(8));
    assert_eq!(second.next(), Some(9));
    assert_eq!(second.next(), None);
    assert_eq!(first.next(), Some(9));
    assert_eq!(first.next(), None);
}

fn count_columns<C: Columnar>(target: &C) -> usize {
    let mut columns = target.cols_iter();
    let mut count = 0;
    while columns.next().is_some() {
        count += 1;
    }
    count
}

fn collect_rows<R: Tabular>(target: &R) -> Vec<R::Row> {
    let mut rows = target.rows_iter();
    let mut all = vec![];
    while let Some(row) = rows.next() {
        all.push(row);
    }
    all
}

#[test]
fn test_generic_passes_agree_with_the_counts() {
    let v2 = Vector2 { x: 'a', y: 'b' };
    let v4 = Vector4 { x: 1.5, y: 2.5, z: 3.5, w: 4.5 };
    assert_eq!(count_columns(&v2), v2.ncols());
    assert_eq!(count_columns(&v4), 1);
    assert_eq!(collect_rows(&v2), vec!['a', 'b']);
    assert_eq!(collect_rows(&v4).len(), v4.nrows());
    assert_eq!(collect_rows(&v4), vec![1.5, 2.5, 3.5, 4.5]);
    for i in 0..v4.nrows() {
        assert_eq!(collect_rows(&v4)[i], v4.row(i).unwrap());
    }
}

#[test]
fn test_matrix_rows_and_columns() {
    let m2 = Matrix2 { x1y1: 1, x2y1: 2, x1y2: 3, x2y2: 4 };
    assert_eq!(m2.nrows(), 2);
    assert_eq!(m2.ncols(), 2);
    assert_eq!(m2.row(0), Some(Vector2 { x: 1, y: 2 }));
    assert_eq!(m2.row(1), Some(Vector2 { x: 3, y: 4 }));
    assert_eq!(m2.row(2), None);
    assert_eq!(m2.column(0), Some(Vector2 { x: 1, y: 3 }));
    assert_eq!(m2.column(1), Some(Vector2 { x: 2, y: 4 }));
    assert_eq!(m2.column(2), None);

    let m3 = Matrix3 {
        x1y1: 1, x2y1: 2, x3y1: 3,
        x1y2: 4, x2y2: 5, x3y2: 6,
        x1y3: 7, x2y3: 8, x3y3: 9,
    };
    assert_eq!(m3.nrows(), 3);
    assert_eq!(m3.ncols(), 3);
    assert_eq!(m3.row(2), Some(Vector3 { x: 7, y: 8, z: 9 }));
    assert_eq!(m3.column(2), Some(Vector3 { x: 3, y: 6, z: 9 }));
    assert_eq!(m3.row(3), None);
    assert_eq!(m3.column(usize::MAX), None);

    let m4 = Matrix4 {
        x1y1: 0, x2y1: 1, x3y1: 2, x4y1: 3,
        x1y2: 4, x2y2: 5, x3y2: 6, x4y2: 7,
        x1y3: 8, x2y3: 9, x3y3: 10, x4y3: 11,
        x1y4: 12, x2y4: 13, x3y4: 14, x4y4: 15,
    };
    assert_eq!(m4.nrows(), 4);
    assert_eq!(m4.ncols(), 4);
    assert_eq!(m4.row(1), Some(Vector4 { x: 4, y: 5, z: 6, w: 7 }));
    assert_eq!(m4.column(3), Some(Vector4 { x: 3, y: 7, z: 11, w: 15 }));
    assert_eq!(m4.row(4), None);
    assert_eq!(m4.column(4), None);
}

#[test]
fn test_matrix_passes_walk_rows_and_columns() {
    let m = Matrix3 {
        x1y1: 1, x2y1: 2, x3y1: 3,
        x1y2: 4, x2y2: 5, x3y2: 6,
        x1y3: 7, x2y3: 8, x3y3: 9,
    };
    assert_eq!(
        collect_rows(&m),
        vec![
            Vector3 { x: 1, y: 2, z: 3 },
            Vector3 { x: 4, y: 5, z: 6 },
            Vector3 { x: 7, y: 8, z: 9 },
        ]
    );
    assert_eq!(count_columns(&m), 3);
    let mut columns = m.cols_iter();
    assert_eq!(columns.next(), Some(Vector3 { x: 1, y: 4, z: 7 }));
    assert_eq!(columns.next(), Some(Vector3 { x: 2, y: 5, z: 8 }));
    assert_eq!(columns.next(), Some(Vector3 { x: 3, y: 6, z: 9 }));
    assert_eq!(columns.next(), None);
    assert_eq!(columns.next(), None);
    for x in 0..3 {
        for y in 0..3 {
            assert_eq!(m.column(x).unwrap()[y], m[(x, y)]);
            assert_eq!(m.row(y).unwrap()[x], m[(x, y)]);
        }
    }
}
