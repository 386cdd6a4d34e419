use towersim::fx::fx_add;
use towersim::fx::fx_div;
use towersim::fx::fx_mod;
use towersim::fx::fx_mul;
use towersim::fx::fx_sub;
use towersim::geom::pythag;
use towersim::geom::pythag_sqrt;

const ONE: i64 = 65536;

#[test]
fn add_and_sub_are_exact() {
    assert_eq!(fx_add(3 * ONE, 2 * ONE), 5 * ONE);
    assert_eq!(fx_sub(3 * ONE, 5 * ONE), -2 * ONE);
    assert_eq!(fx_add(-7, 7), 0);
}

#[test]
fn add_saturates_at_the_i64_range() {
    assert_eq!(fx_add(i64::MAX, 1), i64::MAX);
    assert_eq!(fx_add(i64::MIN, -1), i64::MIN);
    assert_eq!(fx_sub(i64::MIN, 1), i64::MIN);
}

#[test]
fn mul_is_exact_on_whole_units() {
    assert_eq!(fx_mul(3 * ONE, 2 * ONE), 6 * ONE);
    assert_eq!(fx_mul(-3 * ONE, 2 * ONE), -6 * ONE);
    assert_eq!(fx_mul(ONE / 2, ONE / 2), ONE / 4);
}

#[test]
fn mul_rounds_toward_negative_infinity() {
    // -3 bits times one unit is -3/65536, which floors to -1 bit.
    assert_eq!(fx_mul(-3, ONE), -3);
    assert_eq!(fx_mul(-3, 1), -1);
    assert_eq!(fx_mul(3, 1), 0);
}

#[test]
fn div_is_exact_and_floors() {
    assert_eq!(fx_div(6 * ONE, 2 * ONE), 3 * ONE);
    assert_eq!(fx_div(ONE, 3 * ONE), 21845);
    assert_eq!(fx_div(-1, 2), -32768);
}

#[test]
fn mod_is_euclidean() {
    assert_eq!(fx_mod(10, 7), 3);
    assert_eq!(fx_mod(-1, 7), 6);
    assert_eq!(fx_mod(-14, 7), 0);
}

#[test]
fn squared_distance_of_a_three_four_triangle() {
    // (3,4) units away: squared distance 25 square units.
    assert_eq!(pythag((0, 0), (3 * ONE, 4 * ONE)), 25 * ONE);
}

#[test]
fn distance_of_a_three_four_triangle_is_five() {
    assert_eq!(pythag_sqrt((0, 0), (3 * ONE, 4 * ONE)), 5 * ONE);
}

#[test]
fn distance_floors_between_exact_roots() {
    // (1,1) units: distance sqrt(2) = 1.41421..., 92681 bits floored.
    let d = pythag_sqrt((0, 0), (ONE, ONE));
    let exact = (2.0f64).sqrt();
    let got = d as f64 / ONE as f64;
    assert!((got - exact).abs() < 1e-4, "got {got}, want {exact}");
}
