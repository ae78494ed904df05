use lin::vector::Vector;
use lin::vector::Vector2;
use lin::vector::Vector3;
use lin::vector::Vector4;
use lin::vector::Vector5;
use lin::vector::VectorN;

#[test]
fn test_v2_addition_simple() {
    let v1 = Vector2 { x: 1, y: 1 };
    let v2 = Vector2 { x: 2, y: 2 };
    assert_eq!(v1 + v2, Vector2 { x: 3, y: 3 })
}

#[test]
fn test_v2_subtraction_simple() {
    let v1 = Vector2 { x: 2, y: 2 };
    let v2 = Vector2 { x: 1, y: 1 };
    assert_eq!(v1 - v2, Vector2 { x: 1, y: 1 })
}

#[test]
fn test_v2_dot_simple() {
    let v1 = Vector2 { x: 2, y: 2 };
    let v2 = Vector2 { x: 2, y: 3 };
    assert_eq!(v1 * v2, 10)
}

#[test]
fn test_v2_scalar_multiply() {
    let v = Vector2 { x: 1, y: 1 };
    assert_eq!(v * 5, Vector2 { x: 5, y: 5 });
}

#[test]
fn test_v2_division_and_remainder() {
    let v1 = Vector2 { x: 17i32, y: -9i32 };
    let v2 = Vector2 { x: 5i32, y: 4i32 };
    assert_eq!(v1 / v2, Vector2 { x: 3, y: -2 });
    assert_eq!(v1 % v2, Vector2 { x: 2, y: -1 });
}

#[test]
fn test_v2_scalar_broadcast() {
    let v = Vector2 { x: 7u8, y: 12u8 };
    assert_eq!(v + 3, Vector2 { x: 10, y: 15 });
    assert_eq!(v - 3, Vector2 { x: 4, y: 9 });
    assert_eq!(v * 3, Vector2 { x: 21, y: 36 });
    assert_eq!(v / 3, Vector2 { x: 2, y: 4 });
    assert_eq!(v % 5, Vector2 { x: 2, y: 2 });
}

#[test]
fn test_v3_elementwise() {
    let v1 = Vector3 { x: 10i64, y: 20, z: 30 };
    let v2 = Vector3 { x: 3i64, y: 6, z: 7 };
    assert_eq!(v1 + v2, Vector3 { x: 13, y: 26, z: 37 });
    assert_eq!(v1 - v2, Vector3 { x: 7, y: 14, z: 23 });
    assert_eq!(v1 / v2, Vector3 { x: 3, y: 3, z: 4 });
    assert_eq!(v1 % v2, Vector3 { x: 1, y: 2, z: 2 });
}

#[test]
fn test_v3_scalar_and_dot() {
    let v1 = Vector3 { x: 1i32, y: -2, z: 3 };
    let v2 = Vector3 { x: 4i32, y: 5, z: -6 };
    assert_eq!(v1 * 4, Vector3 { x: 4, y: -8, z: 12 });
    assert_eq!(v1 + 1, Vector3 { x: 2, y: -1, z: 4 });
    assert_eq!(v1 * v2, 4 - 10 - 18);
}

#[test]
fn test_v4_elementwise_and_dot() {
    let v1 = Vector4 { x: 8u16, y: 6, z: 4, w: 2 };
    let v2 = Vector4 { x: 1u16, y: 2, z: 3, w: 2 };
    assert_eq!(v1 + v2, Vector4 { x: 9, y: 8, z: 7, w: 4 });
    assert_eq!(v1 - v2, Vector4 { x: 7, y: 4, z: 1, w: 0 });
    assert_eq!(v1 / v2, Vector4 { x: 8, y: 3, z: 1, w: 1 });
    assert_eq!(v1 % v2, Vector4 { x: 0, y: 0, z: 1, w: 0 });
    assert_eq!(v1 * 2, Vector4 { x: 16, y: 12, z: 8, w: 4 });
    assert_eq!(v1 * v2, 8 + 12 + 12 + 4);
}

#[test]
fn test_v5_elementwise_and_dot() {
    let v1 = Vector5 { x: 1usize, y: 2, z: 3, w: 4, a: 5 };
    let v2 = Vector5 { x: 5usize, y: 4, z: 3, w: 2, a: 1 };
    assert_eq!(v1 + v2, Vector5 { x: 6, y: 6, z: 6, w: 6, a: 6 });
    assert_eq!(v2 - 1, Vector5 { x: 4, y: 3, z: 2, w: 1, a: 0 });
    assert_eq!(v2 / v1, Vector5 { x: 5, y: 2, z: 1, w: 0, a: 0 });
    assert_eq!(v2 % v1, Vector5 { x: 0, y: 0, z: 0, w: 2, a: 1 });
    assert_eq!(v1 * v2, 5 + 8 + 9 + 8 + 5);
}

#[test]
fn test_elementwise_law_by_index() {
    let v1 = Vector4 { x: 11i32, y: -7, z: 5, w: 100 };
    let v2 = Vector4 { x: 2i32, y: 3, z: -4, w: 9 };
    for i in 0..4 {
        assert_eq!((v1 + v2)[i], v1[i] + v2[i]);
        assert_eq!((v1 - v2)[i], v1[i] - v2[i]);
        assert_eq!((v1 / v2)[i], v1[i] / v2[i]);
        assert_eq!((v1 % v2)[i], v1[i] % v2[i]);
        assert_eq!((v1 + 6)[i], v1[i] + 6);
        assert_eq!((v1 * 6)[i], v1[i] * 6);
    }
}

#[test]
fn test_float_vectors() {
    let v1 = Vector2 { x: 1.5f64, y: -2.0 };
    let v2 = Vector2 { x: 0.5f64, y: 4.0 };
    assert_eq!(v1 + v2, Vector2 { x: 2.0, y: 2.0 });
    assert_eq!(v1 * 2.0, Vector2 { x: 3.0, y: -4.0 });
    assert_eq!(v1 * v2, 0.75 - 8.0);
    assert_eq!(v1 / v2, Vector2 { x: 3.0, y: -0.5 });
}

#[test]
fn test_index_reads_components() {
    let v = Vector5 { x: 10, y: 20, z: 30, w: 40, a: 50 };
    assert_eq!(v[0], 10);
    assert_eq!(v[1], 20);
    assert_eq!(v[2], 30);
    assert_eq!(v[3], 40);
    assert_eq!(v[4], 50);
    let u = Vector2 { x: 'p', y: 'q' };
    assert_eq!(u[0], 'p');
    assert_eq!(u[1], 'q');
}

#[test]
fn test_index_mut_writes_one_component() {
    let mut v = Vector3 { x: 1, y: 2, z: 3 };
    v[1] = 20;
    assert_eq!(v, Vector3 { x: 1, y: 20, z: 3 });
    v[2] += 4;
    assert_eq!(v, Vector3 { x: 1, y: 20, z: 7 });
    v[0] = -1;
    assert_eq!(v, Vector3 { x: -1, y: 20, z: 7 });
}

#[test]
fn test_array_round_trip() {
    let v = Vector3 { x: 7u8, y: 8, z: 9 };
    let a: [u8; 3] = v.into();
    assert_eq!(a, [7, 8, 9]);
    assert_eq!(Vector3::from(a), v);

    let b = [1i16, 2, 3, 4, 5];
    let w = Vector5::from(b);
    assert_eq!(w, Vector5 { x: 1, y: 2, z: 3, w: 4, a: 5 });
    assert_eq!(<[i16; 5]>::from(w), b);

    let c = [4u64, 3];
    assert_eq!(<[u64; 2]>::from(Vector2::from(c)), c);
    let d = [1u32, 2, 3, 4];
    assert_eq!(Vector4::from(d), Vector4 { x: 1, y: 2, z: 3, w: 4 });
    assert_eq!(<[u32; 4]>::from(Vector4::from(d)), d);
}

#[test]
fn test_equality_is_componentwise() {
    let v = Vector3 { x: 1, y: 2, z: 3 };
    assert!(v == Vector3 { x: 1, y: 2, z: 3 });
    assert!(v != Vector3 { x: 0, y: 2, z: 3 });
    assert!(v != Vector3 { x: 1, y: 0, z: 3 });
    assert!(v != Vector3 { x: 1, y: 2, z: 0 });
}

#[test]
fn test_order_goes_by_first_difference() {
    let v = Vector3 { x: 1, y: 5, z: 3 };
    assert!(v < Vector3 { x: 2, y: 0, z: 0 });
    assert!(v > Vector3 { x: 0, y: 9, z: 9 });
    assert!(v < Vector3 { x: 1, y: 6, z: 0 });
    assert!(v > Vector3 { x: 1, y: 5, z: 2 });
    assert!(v <= Vector3 { x: 1, y: 5, z: 3 });
    assert!(v >= Vector3 { x: 1, y: 5, z: 3 });
    let nan = Vector2 { x: f64::NAN, y: 0.0 };
    assert_eq!(nan.partial_cmp(&nan), None);
    let late_nan = Vector2 { x: 1.0, y: f64::NAN };
    assert_eq!(late_nan.partial_cmp(&late_nan), None);
    assert_eq!(
        late_nan.partial_cmp(&Vector2 { x: 2.0, y: 0.0 }),
        Some(std::cmp::Ordering::Less)
    );
}

#[test]
fn test_default_is_all_defaults() {
    assert_eq!(Vector2::<i32>::default(), Vector2 { x: 0, y: 0 });
    assert_eq!(Vector4::<u8>::default(), Vector4 { x: 0, y: 0, z: 0, w: 0 });
    assert_eq!(Vector3::<bool>::default(), Vector3 { x: false, y: false, z: false });
}

#[test]
fn test_is_perpendicular_to() {
    let v = Vector2 { x: 1i32, y: 0 };
    assert!(v.is_perpendicular_to(Vector2 { x: 0, y: 5 }));
    assert!(!v.is_perpendicular_to(Vector2 { x: 2, y: 5 }));
    let u = Vector3 { x: 1i64, y: 2, z: 3 };
    assert!(u.is_perpendicular_to(Vector3 { x: 3, y: 0, z: -1 }));
    assert!(!u.is_perpendicular_to(u));
}

#[test]
fn test_vector_n_wraps_a_slice() {
    let elements = [3u32, 1, 4, 1, 5];
    let v = VectorN::new(&elements);
    assert_eq!(v.as_slice(), &[3, 1, 4, 1, 5]);
    let empty: [u8; 0] = [];
    assert_eq!(VectorN::new(&empty).as_slice().len(), 0);
}
