use vector_benchmarks::bench::{dot_sum, iteration_count, DEFAULT_NUM_ITERATIONS};
use vector_benchmarks::scalar::Scalar;
use vector_benchmarks::vector::Vector3;

// The concrete pair (3.52, 8.23, 29.0) . (0.0, 1.3, -3.23) in hundredths:
// each component has at most two decimal digits, so in units of 1/10000 the
// dot product is exact: 352*0 + 823*130 + 2900*(-323) = -829710, i.e. -82.971.
#[test]
fn test_i64_dot() {
    let vec1: Vector3<i64> = Vector3::new(352, 823, 2900);
    let vec2: Vector3<i64> = Vector3::new(0, 130, -323);

    assert_eq!(vec1.dot(&vec2), -829710);
    assert_eq!(vec2.dot(&vec1), -829710);
}

#[test]
fn test_i32_dot() {
    let vec1: Vector3<i32> = Vector3::new(352, 823, 2900);
    let vec2: Vector3<i32> = Vector3::new(0, 130, -323);

    assert_eq!(vec1.dot(&vec2), -829710);
    assert_eq!(vec2.dot(&vec1), -829710);
}

#[test]
fn test_new_components() {
    let v: Vector3<i64> = Vector3::new(-7, 0, 42);
    assert_eq!(v.x, -7);
    assert_eq!(v.y, 0);
    assert_eq!(v.z, 42);
}

#[test]
fn test_zero_vector_dot() {
    let zero: Vector3<i64> = Vector3::new(0, 0, 0);
    let v: Vector3<i64> = Vector3::new(i64::MAX, i64::MIN, 123_456_789);

    assert_eq!(zero.dot(&v), 0);
    assert_eq!(v.dot(&zero), 0);
}

#[test]
fn test_dot_commutes() {
    let a: Vector3<i64> = Vector3::new(3_000_000_000, -2_000_000_000, 1);
    let b: Vector3<i64> = Vector3::new(2, 3, -7);

    assert_eq!(a.dot(&b), b.dot(&a));
    assert_eq!(a.dot(&b), 6_000_000_000 - 6_000_000_000 - 7);
}

#[test]
fn test_dot_at_bounds() {
    let a: Vector3<i64> = Vector3::new(i64::MAX, 0, 0);
    let b: Vector3<i64> = Vector3::new(1, 1, 1);
    assert_eq!(a.dot(&b), i64::MAX);

    let c: Vector3<i64> = Vector3::new(i64::MIN, 0, 0);
    assert_eq!(c.dot(&b), i64::MIN);
}

#[test]
fn test_scalar_operations() {
    let z: i64 = Scalar::zero();
    assert_eq!(z, 0);
    assert_eq!(Scalar::add(5i64, 7), 12);
    assert_eq!(Scalar::mul(5i64, -7), -35);
    let z32: i32 = Scalar::zero();
    assert_eq!(z32, 0);
    assert_eq!(Scalar::add(6i32, -13), -7);
    assert_eq!(Scalar::mul(6i32, 6), 36);
}

#[test]
fn test_dot_sum() {
    let vec1: Vector3<i64> = Vector3::new(352, 823, 2900);
    let vec2: Vector3<i64> = Vector3::new(0, 130, -323);

    assert_eq!(dot_sum(&vec1, &vec2, 0), 0);
    assert_eq!(dot_sum(&vec1, &vec2, 1), -829710);
    assert_eq!(dot_sum(&vec1, &vec2, 1000), -829_710_000);
}

#[test]
fn test_iteration_count() {
    assert_eq!(iteration_count(Some(1234)), 1234);
    assert_eq!(iteration_count(Some(0)), 0);
    assert_eq!(iteration_count(None), DEFAULT_NUM_ITERATIONS);
    assert_eq!(DEFAULT_NUM_ITERATIONS, 10_000_000_000);
}
