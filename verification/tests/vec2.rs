use candle::ApproxEq;
use candle::Vec2;

fn vec(x: f64, y: f64) -> Vec2 {
    Vec2::new(x.to_bits(), y.to_bits())
}

fn coord(b: u64) -> f64 {
    f64::from_bits(b)
}

#[test]
fn new_keeps_the_given_coordinates() {
    let v = vec(1.0, 2.0);
    assert_eq!(coord(v.x), 1.0);
    assert_eq!(coord(v.y), 2.0);
}

#[test]
fn dot_product_example_is_exact() {
    let v1 = vec(5.0, 12.0);
    let v2 = vec(-6.0, 8.0);
    assert_eq!(coord(v1.dot(&v2)), 66.0);
}

#[test]
fn dot_product_is_commutative_on_samples() {
    let v1 = vec(1.5, -2.25);
    let v2 = vec(3.0, 4.5);
    assert_eq!(v1.dot(&v2), v2.dot(&v1));
}

#[test]
fn dot_product_agrees_with_native_arithmetic() {
    let cases = [(5.0, 12.0, -6.0, 8.0), (0.1, 0.2, 0.3, 0.4), (1.0e10, -2.0e-10, 3.5, 7.25)];
    for (x1, y1, x2, y2) in cases {
        let got = coord(vec(x1, y1).dot(&vec(x2, y2)));
        assert_eq!(got, x1 * x2 + y1 * y2);
    }
}

#[test]
fn length_example_is_exact() {
    assert_eq!(coord(vec(3.0, 4.0).length()), 5.0);
}

#[test]
fn magnitude_is_the_length() {
    let v = vec(3.0, 4.0);
    assert_eq!(v.magnitude(), v.length());
}

#[test]
fn length_is_sqrt_of_self_dot_on_samples() {
    for (x, y) in [(3.0, 4.0), (1.0, 1.0), (0.5, -0.25), (7.5, 0.1)] {
        let v = vec(x, y);
        assert_eq!(coord(v.length()), coord(v.dot(&v)).sqrt());
    }
}

#[test]
fn length_agrees_with_native_arithmetic() {
    for (x, y) in [(1.0, 1.0), (2.0, -3.0), (0.3, 0.4)] {
        assert_eq!(coord(vec(x, y).length()), (x * x + y * y).sqrt());
    }
}

#[test]
fn length_of_an_infinite_vector_is_infinite() {
    assert_eq!(coord(vec(f64::INFINITY, 0.0).length()), f64::INFINITY);
}

#[test]
fn length_of_a_nan_vector_is_nan() {
    assert!(coord(vec(f64::NAN, 1.0).length()).is_nan());
}

#[test]
fn normalized_vector_has_length_approximately_one() {
    let nor = vec(4.0, 2.0).normalized();
    assert!(nor.length().approx_eq(1.0f64.to_bits()));
    // exactly normalizable vectors come out with length exactly one
    let nor2 = vec(1.0, 0.0).normalized();
    assert!(nor2.length().approx_eq(1.0f64.to_bits()));
    let nor3 = vec(0.0, -5.0).normalized();
    assert!(nor3.length().approx_eq(1.0f64.to_bits()));
}

#[test]
fn normalized_divides_each_coordinate_by_the_length() {
    let nor = vec(3.0, 4.0).normalized();
    assert_eq!(coord(nor.x), 0.6);
    assert_eq!(coord(nor.y), 0.8);
}

#[test]
fn normalized_zero_vector_has_nan_coordinates() {
    let nor = vec(0.0, 0.0).normalized();
    assert!(coord(nor.x).is_nan());
    assert!(coord(nor.y).is_nan());
}

#[test]
fn addition_example_is_exact() {
    let sum = vec(1.0, 5.0).add(&vec(2.0, 1.0));
    assert_eq!(coord(sum.x), 3.0);
    assert_eq!(coord(sum.y), 6.0);
}

#[test]
fn scalar_addition_example_is_exact() {
    let sum = vec(3.0, 4.0).add_scalar(2.0f64.to_bits());
    assert_eq!(coord(sum.x), 5.0);
    assert_eq!(coord(sum.y), 6.0);
}

#[test]
fn subtraction_example_is_exact() {
    let diff = vec(3.0, 5.0).sub(&vec(1.0, 6.0));
    assert_eq!(coord(diff.x), 2.0);
    assert_eq!(coord(diff.y), -1.0);
}

#[test]
fn scalar_subtraction_example_is_exact() {
    let diff = vec(3.0, 2.0).sub_scalar(2.0f64.to_bits());
    assert_eq!(coord(diff.x), 1.0);
    assert_eq!(coord(diff.y), 0.0);
}

#[test]
fn addition_agrees_with_native_arithmetic() {
    for (x1, y1, x2, y2) in [(0.1, 0.2, 0.3, 0.4), (1.0e300, 1.0, -1.0e300, 2.0)] {
        let sum = vec(x1, y1).add(&vec(x2, y2));
        assert_eq!(coord(sum.x), x1 + x2);
        assert_eq!(coord(sum.y), y1 + y2);
    }
}

#[test]
fn nearly_equal_vectors_are_approx_equal() {
    let v1 = vec(1.0, 1.0);
    let v2 = vec(0.999999999999999999, 0.999999999999999999);
    assert!(v1.approx_eq(v2));
}

#[test]
fn distant_vectors_are_not_approx_equal() {
    assert!(!vec(1.0, 1.0).approx_eq(vec(1.0, 2.0)));
    assert!(!vec(1.0, 1.0).approx_eq(vec(2.0, 1.0)));
}

#[test]
fn vector_approx_eq_eps_checks_each_axis_independently() {
    let v1 = vec(0.0, 0.0);
    let v2 = vec(0.4, 0.9);
    assert!(v1.approx_eq_eps(v2, vec(0.5, 1.0)));
    // within tolerance on x, outside on y
    assert!(!v1.approx_eq_eps(v2, vec(0.5, 0.5)));
    // within tolerance on y, outside on x
    assert!(!v1.approx_eq_eps(v2, vec(0.2, 1.0)));
}

#[test]
fn vector_approx_eq_to_itself_with_positive_tolerance() {
    let v = vec(2.5, -7.0);
    assert!(v.approx_eq_eps(v, vec(1.0e-12, 1.0e-12)));
}

#[test]
fn vector_default_tolerance_is_machine_epsilon_per_axis() {
    let eps = vec(f64::EPSILON, f64::EPSILON);
    let pairs = [
        (vec(1.0, 1.0), vec(1.0, 1.0)),
        (vec(0.0, 0.0), vec(f64::EPSILON / 2.0, 0.0)),
        (vec(0.0, 0.0), vec(0.0, f64::EPSILON)),
        (vec(1.0, 2.0), vec(2.0, 1.0)),
    ];
    for (a, b) in pairs {
        assert_eq!(a.approx_eq(b), a.approx_eq_eps(b, eps));
    }
}

#[test]
fn nan_vector_is_approx_equal_to_nothing() {
    let n = vec(f64::NAN, f64::NAN);
    assert!(!n.approx_eq(n));
    assert!(!n.approx_eq(vec(0.0, 0.0)));
}
