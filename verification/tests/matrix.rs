use lin::matrix::Matrix;
use lin::matrix::Matrix2;
use lin::matrix::Matrix3;
use lin::matrix::Matrix4;

fn sample3() -> Matrix3<i32> {
    Matrix3 {
        x1y1: 1, x2y1: 2, x3y1: 3,
        x1y2: 4, x2y2: 5, x3y2: 6,
        x1y3: 7, x2y3: 8, x3y3: 9,
    }
}

fn sample4() -> Matrix4<u32> {
    Matrix4 {
        x1y1: 0, x2y1: 1, x3y1: 2, x4y1: 3,
        x1y2: 4, x2y2: 5, x3y2: 6, x4y2: 7,
        x1y3: 8, x2y3: 9, x3y3: 10, x4y3: 11,
        x1y4: 12, x2y4: 13, x3y4: 14, x4y4: 15,
    }
}

#[test]
fn test_matrix_dimensions() {
    let m2 = Matrix2 { x1y1: 0, x2y1: 0, x1y2: 0, x2y2: 0 };
    assert_eq!(m2.nrows(), 2);
    assert_eq!(m2.ncols(), 2);
    assert_eq!(sample3().nrows(), 3);
    assert_eq!(sample3().ncols(), 3);
    assert_eq!(sample4().nrows(), 4);
    assert_eq!(sample4().ncols(), 4);
}

#[test]
fn test_matrix_index_is_flattened_offset() {
    let m2 = Matrix2 { x1y1: 'a', x2y1: 'b', x1y2: 'c', x2y2: 'd' };
    assert_eq!(m2[(0, 0)], 'a');
    assert_eq!(m2[(1, 0)], 'b');
    assert_eq!(m2[(0, 1)], 'c');
    assert_eq!(m2[(1, 1)], 'd');

    let m3 = sample3();
    let flat3: [[i32; 3]; 3] = m3.into();
    for y in 0..3 {
        for x in 0..3 {
            assert_eq!(m3[(x, y)], (1 + x + y * 3) as i32);
            assert_eq!(m3[(x, y)], flat3[y][x]);
        }
    }
    let m4 = sample4();
    let flat4: [[u32; 4]; 4] = m4.into();
    for y in 0..4 {
        for x in 0..4 {
            assert_eq!(m4[(x, y)], (x + y * 4) as u32);
            assert_eq!(m4[(x, y)], flat4[y][x]);
        }
    }
}

#[test]
fn test_matrix_named_components() {
    let m = sample3();
    assert_eq!(m[(2, 0)], m.x3y1);
    assert_eq!(m[(0, 2)], m.x1y3);
    assert_eq!(m[(1, 2)], m.x2y3);
    let m4 = sample4();
    assert_eq!(m4[(3, 0)], m4.x4y1);
    assert_eq!(m4[(0, 3)], m4.x1y4);
    assert_eq!(m4[(2, 1)], m4.x3y2);
}

#[test]
fn test_matrix_index_mut_writes_one_component() {
    let mut m = sample3();
    m[(2, 1)] = 60;
    assert_eq!(m.x3y2, 60);
    let mut expected = sample3();
    expected.x3y2 = 60;
    assert_eq!(m, expected);

    let mut m2 = Matrix2 { x1y1: 1, x2y1: 2, x1y2: 3, x2y2: 4 };
    m2[(0, 1)] += 10;
    assert_eq!(m2, Matrix2 { x1y1: 1, x2y1: 2, x1y2: 13, x2y2: 4 });

    let mut m4 = sample4();
    m4[(3, 3)] = 99;
    m4[(0, 0)] = 77;
    assert_eq!(m4.x4y4, 99);
    assert_eq!(m4.x1y1, 77);
    assert_eq!(m4.x2y1, 1);
}

#[test]
fn test_matrix_array_round_trip() {
    let a2 = [[1u8, 2], [3, 4]];
    let m2 = Matrix2::from(a2);
    assert_eq!(m2, Matrix2 { x1y1: 1, x2y1: 2, x1y2: 3, x2y2: 4 });
    assert_eq!(<[[u8; 2]; 2]>::from(m2), a2);

    let m3 = sample3();
    let a3: [[i32; 3]; 3] = m3.into();
    assert_eq!(a3, [[1, 2, 3], [4, 5, 6], [7, 8, 9]]);
    assert_eq!(Matrix3::from(a3), m3);

    let m4 = sample4();
    let a4: [[u32; 4]; 4] = m4.into();
    assert_eq!(a4, [[0, 1, 2, 3], [4, 5, 6, 7], [8, 9, 10, 11], [12, 13, 14, 15]]);
    assert_eq!(Matrix4::from(a4), m4);
}

#[test]
fn test_matrix_elementwise() {
    let m1 = Matrix2 { x1y1: 10i32, x2y1: 20, x1y2: 30, x2y2: 40 };
    let m2 = Matrix2 { x1y1: 3i32, x2y1: 4, x1y2: 5, x2y2: 6 };
    assert_eq!(m1 + m2, Matrix2 { x1y1: 13, x2y1: 24, x1y2: 35, x2y2: 46 });
    assert_eq!(m1 - m2, Matrix2 { x1y1: 7, x2y1: 16, x1y2: 25, x2y2: 34 });
    assert_eq!(m1 / m2, Matrix2 { x1y1: 3, x2y1: 5, x1y2: 6, x2y2: 6 });
    assert_eq!(m1 % m2, Matrix2 { x1y1: 1, x2y1: 0, x1y2: 0, x2y2: 4 });
}

#[test]
fn test_matrix_scalar_broadcast() {
    let m = sample3();
    assert_eq!(
        m * 2,
        Matrix3 {
            x1y1: 2, x2y1: 4, x3y1: 6,
            x1y2: 8, x2y2: 10, x3y2: 12,
            x1y3: 14, x2y3: 16, x3y3: 18,
        }
    );
    assert_eq!(
        m + 1,
        Matrix3 {
            x1y1: 2, x2y1: 3, x3y1: 4,
            x1y2: 5, x2y2: 6, x3y2: 7,
            x1y3: 8, x2y3: 9, x3y3: 10,
        }
    );
    assert_eq!(
        m - 1,
        Matrix3 {
            x1y1: 0, x2y1: 1, x3y1: 2,
            x1y2: 3, x2y2: 4, x3y2: 5,
            x1y3: 6, x2y3: 7, x3y3: 8,
        }
    );
    assert_eq!(
        m / 2,
        Matrix3 {
            x1y1: 0, x2y1: 1, x3y1: 1,
            x1y2: 2, x2y2: 2, x3y2: 3,
            x1y3: 3, x2y3: 4, x3y3: 4,
        }
    );
    assert_eq!(
        m % 2,
        Matrix3 {
            x1y1: 1, x2y1: 0, x3y1: 1,
            x1y2: 0, x2y2: 1, x3y2: 0,
            x1y3: 1, x2y3: 0, x3y3: 1,
        }
    );
}

#[test]
fn test_matrix4_elementwise_by_index() {
    let m1 = sample4();
    let m2 = sample4() + 1;
    let sum = m1 + m2;
    let difference = m2 - m1;
    let quotient = m2 / m2;
    let remainder = m1 % m2;
    let scaled = m1 * 3;
    for y in 0..4 {
        for x in 0..4 {
            assert_eq!(sum[(x, y)], m1[(x, y)] + m2[(x, y)]);
            assert_eq!(difference[(x, y)], 1);
            assert_eq!(quotient[(x, y)], 1);
            assert_eq!(remainder[(x, y)], m1[(x, y)]);
            assert_eq!(scaled[(x, y)], m1[(x, y)] * 3);
        }
    }
}

#[test]
fn test_matrix_equality_and_order() {
    let m = sample3();
    let mut other = sample3();
    assert!(m == other);
    other.x3y3 = 10;
    assert!(m != other);
    assert!(m < other);
    other.x1y1 = 0;
    assert!(m > other);
    assert_eq!(Matrix2::<u8>::default(), Matrix2 { x1y1: 0, x2y1: 0, x1y2: 0, x2y2: 0 });
}
