use lin::vector::Vector2;
use lin::vector::Vector3;
use lin::vector::Vector5;
use quickcheck::quickcheck;
use quickcheck::TestResult;
use rand::Rng;
use rand::SeedableRng;
use rand::XorShiftRng;

fn addition(x1: isize, x2: isize, y1: isize, y2: isize) -> TestResult {
    match (x1.checked_add(x2), y1.checked_add(y2)) {
        (Some(x), Some(y)) => {
            let v1 = Vector2 { x: x1, y: y1 };
            let v2 = Vector2 { x: x2, y: y2 };
            TestResult::from_bool(Vector2 { x, y } == v1 + v2)
        }
        _ => TestResult::discard(),
    }
}

fn subtraction(x1: isize, x2: isize, y1: isize, y2: isize) -> TestResult {
    match (x1.checked_sub(x2), y1.checked_sub(y2)) {
        (Some(x), Some(y)) => {
            let v1 = Vector2 { x: x1, y: y1 };
            let v2 = Vector2 { x: x2, y: y2 };
            TestResult::from_bool(Vector2 { x, y } == v1 - v2)
        }
        _ => TestResult::discard(),
    }
}

fn division(x1: isize, x2: isize, y1: isize, y2: isize) -> TestResult {
    match (x1.checked_div(x2), y1.checked_div(y2)) {
        (Some(x), Some(y)) => {
            let v1 = Vector2 { x: x1, y: y1 };
            let v2 = Vector2 { x: x2, y: y2 };
            TestResult::from_bool(Vector2 { x, y } == v1 / v2)
        }
        _ => TestResult::discard(),
    }
}

fn modulus(x1: isize, x2: isize, y1: isize, y2: isize) -> TestResult {
    match (x1.checked_rem(x2), y1.checked_rem(y2)) {
        (Some(x), Some(y)) => {
            let v1 = Vector2 { x: x1, y: y1 };
            let v2 = Vector2 { x: x2, y: y2 };
            TestResult::from_bool(Vector2 { x, y } == v1 % v2)
        }
        _ => TestResult::discard(),
    }
}

fn scalar_addition(x: i32, y: i32, s: i32) -> TestResult {
    match (x.checked_add(s), y.checked_add(s)) {
        (Some(xs), Some(ys)) => {
            let sum = Vector2 { x, y } + s;
            TestResult::from_bool(sum[0] == xs && sum[1] == ys)
        }
        _ => TestResult::discard(),
    }
}

fn round_trip(x: u64, y: u64) -> bool {
    let v = Vector2 { x, y };
    let a: [u64; 2] = v.into();
    Vector2::from(a) == v && a == [x, y]
}

#[test]
fn prop_v2_addition() {
    quickcheck(addition as fn(isize, isize, isize, isize) -> TestResult);
}

#[test]
fn prop_v2_subtraction() {
    quickcheck(subtraction as fn(isize, isize, isize, isize) -> TestResult);
}

#[test]
fn prop_v2_division() {
    quickcheck(division as fn(isize, isize, isize, isize) -> TestResult);
}

#[test]
fn prop_v2_mod() {
    quickcheck(modulus as fn(isize, isize, isize, isize) -> TestResult);
}

#[test]
fn prop_v2_scalar_addition() {
    quickcheck(scalar_addition as fn(i32, i32, i32) -> TestResult);
}

#[test]
fn prop_v2_array_round_trip() {
    quickcheck(round_trip as fn(u64, u64) -> bool);
}

#[test]
fn test_vector_of_drawn_elements() {
    let mut rng = XorShiftRng::from_seed([1, 2, 3, 4]);
    let v: Vector3<u32> = Vector3::from([rng.gen(), rng.gen(), rng.gen()]);
    let mut again = XorShiftRng::from_seed([1, 2, 3, 4]);
    assert_eq!(v.x, again.gen::<u32>());
    assert_eq!(v.y, again.gen::<u32>());
    assert_eq!(v.z, again.gen::<u32>());
}

#[test]
fn test_drawn_vectors_obey_the_operators() {
    let mut rng = XorShiftRng::from_seed([9, 8, 7, 6]);
    for _ in 0..50 {
        let a: Vector5<i64> = Vector5::from([
            rng.gen::<i32>() as i64,
            rng.gen::<i32>() as i64,
            rng.gen::<i32>() as i64,
            rng.gen::<i32>() as i64,
            rng.gen::<i32>() as i64,
        ]);
        let b: Vector5<i64> = Vector5::from([
            rng.gen::<i16>() as i64,
            rng.gen::<i16>() as i64,
            rng.gen::<i16>() as i64,
            rng.gen::<i16>() as i64,
            rng.gen::<i16>() as i64,
        ]);
        let mut dot = 0i64;
        for i in 0..5 {
            assert_eq!((a + b)[i], a[i] + b[i]);
            assert_eq!((a - b)[i], a[i] - b[i]);
            dot += a[i] * b[i];
        }
        assert_eq!(a * b, dot);
    }
}
