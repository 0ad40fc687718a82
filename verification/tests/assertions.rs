use build_assert::assertion::{build_assert, build_assert_eq, build_assert_ne};

/// Raises a failed verdict the way an unoptimized build does: by a panic
/// that carries the diagnostic.
fn raise(verdict: Result<(), String>) {
    if let Err(message) = verdict {
        panic!("{}", message);
    }
}

#[test]
fn test_build_assert() {
    raise(build_assert(true, "true", None));
}

#[test]
#[should_panic(expected = "assertion failed: false")]
fn test_build_assert_fail() {
    raise(build_assert(false, "false", None));
}

fn assert_const<const N: usize>() {
    let message = format!("N must be greater than 10, got {}", N);
    raise(build_assert(N > 10, "N > 10", Some(&message)));
}

#[test]
fn test_assert_const() {
    assert_const::<11>();
}

#[test]
#[should_panic(expected = "N must be greater than 10, got 10")]
fn test_assert_const_fail() {
    assert_const::<10>();
}

fn compare_eq(left: usize, right: usize, message: Option<&str>) {
    let (l, r) = (format!("{:?}", left), format!("{:?}", right));
    raise(build_assert_eq(left == right, &l, &r, message));
}

fn compare_ne(left: usize, right: usize, message: Option<&str>) {
    let (l, r) = (format!("{:?}", left), format!("{:?}", right));
    raise(build_assert_ne(left == right, &l, &r, message));
}

#[test]
fn test_build_assert_eq() {
    compare_eq(1, 1, None);
}

#[test]
#[should_panic(expected = "assertion `left == right` failed\n  left: 1\n right: 2")]
fn test_build_assert_eq_fail() {
    compare_eq(1, 2, None);
}

fn assert_const_eq<const A: usize, const B: usize>() {
    let message = format!("A must be equal to B, got {A} and {B}");
    compare_eq(A, B, Some(&message));
}

#[test]
fn test_assert_const_eq() {
    assert_const_eq::<1, 1>();
}

#[test]
#[should_panic(
    expected = "assertion `left == right` failed: A must be equal to B, got 1 and 2\n  left: 1\n right: 2"
)]
fn test_assert_const_eq_fail() {
    assert_const_eq::<1, 2>();
}

#[test]
fn test_build_assert_ne() {
    compare_ne(1, 2, None);
}

#[test]
#[should_panic(expected = "assertion `left != right` failed\n  left: 1\n right: 1")]
fn test_build_assert_ne_fail() {
    compare_ne(1, 1, None);
}

fn assert_const_ne<const A: usize, const B: usize>() {
    let message = format!("A must not be equal to B, got {} and {}", A, B);
    compare_ne(A, B, Some(&message));
}

#[test]
fn test_assert_const_ne() {
    assert_const_ne::<1, 2>();
}

#[test]
#[should_panic(
    expected = "assertion `left != right` failed: A must not be equal to B, got 1 and 1\n  left: 1\n right: 1"
)]
fn test_assert_const_ne_fail() {
    assert_const_ne::<1, 1>();
}

#[test]
fn verdicts_are_exact() {
    assert_eq!(build_assert(true, "x > 0", Some("unused")), Ok(()));
    assert_eq!(
        build_assert(false, "x > 0", None),
        Err("assertion failed: x > 0".to_string())
    );
    assert_eq!(build_assert(false, "x > 0", Some("custom")), Err("custom".to_string()));
    assert_eq!(build_assert_eq(true, "1", "2", None), Ok(()));
    assert_eq!(
        build_assert_eq(false, "\"a\"", "\"b\"", Some("why")),
        Err("assertion `left == right` failed: why\n  left: \"a\"\n right: \"b\"".to_string())
    );
    assert_eq!(build_assert_ne(false, "1", "1", None), Ok(()));
    assert_eq!(
        build_assert_ne(true, "7", "7", None),
        Err("assertion `left != right` failed\n  left: 7\n right: 7".to_string())
    );
}
