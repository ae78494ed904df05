use lin::vector::Vector2;
use lin::vector::Vector3;

#[test]
fn test_simdalize_pads_with_ones() {
    let v = Vector3 { x: 7i32, y: 8, z: 9 };
    let four: [i32; 4] = v.simdalize();
    assert_eq!(four, [7, 8, 9, 1]);
    let eight: [i32; 8] = v.simdalize();
    assert_eq!(eight, [7, 8, 9, 1, 1, 1, 1, 1]);
    let exact: [i32; 3] = v.simdalize();
    assert_eq!(exact, [7, 8, 9]);

    let u = Vector2 { x: 5u16, y: 6 };
    let two: [u16; 2] = u.simdalize();
    assert_eq!(two, [5, 6]);
    let four: [u16; 4] = u.simdalize();
    assert_eq!(four, [5, 6, 1, 1]);
    let eight: [u16; 8] = u.simdalize();
    assert_eq!(eight, [5, 6, 1, 1, 1, 1, 1, 1]);
}

#[test]
fn test_from_lanes_drops_the_padding() {
    assert_eq!(Vector3::from_lanes([1u64, 2, 3, 4]), Vector3 { x: 1, y: 2, z: 3 });
    assert_eq!(Vector3::from_lanes([1u8, 2, 3]), Vector3 { x: 1, y: 2, z: 3 });
    assert_eq!(Vector2::from_lanes([9i8, 8, 7, 6, 5, 4, 3, 2]), Vector2 { x: 9, y: 8 });
    let v = Vector3 { x: -1i64, y: 0, z: 1 };
    assert_eq!(Vector3::from_lanes(v.simdalize::<4>()), v);
    let u = Vector2 { x: 3usize, y: 4 };
    assert_eq!(Vector2::from_lanes(u.simdalize::<2>()), u);
}

#[test]
fn test_lane_by_lane_agrees_with_the_operators() {
    let v1 = Vector3 { x: 12i32, y: -7, z: 30 };
    let v2 = Vector3 { x: 5i32, y: 2, z: -4 };
    let a: [i32; 4] = v1.simdalize();
    let b: [i32; 4] = v2.simdalize();
    let sum = [a[0] + b[0], a[1] + b[1], a[2] + b[2], a[3] + b[3]];
    let difference = [a[0] - b[0], a[1] - b[1], a[2] - b[2], a[3] - b[3]];
    let quotient = [a[0] / b[0], a[1] / b[1], a[2] / b[2], a[3] / b[3]];
    let remainder = [a[0] % b[0], a[1] % b[1], a[2] % b[2], a[3] % b[3]];
    assert_eq!(Vector3::from_lanes(sum), v1 + v2);
    assert_eq!(Vector3::from_lanes(difference), v1 - v2);
    assert_eq!(Vector3::from_lanes(quotient), v1 / v2);
    assert_eq!(Vector3::from_lanes(remainder), v1 % v2);
}
