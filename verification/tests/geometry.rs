use towersim::geom::angle_between;
use towersim::trig::cos_angle;
use towersim::trig::sin_angle;
use towersim::trig::TWO_PI_BITS;

const ONE: i64 = 65536;

fn bits_to_rad(b: i64) -> f64 {
    b as f64 / ONE as f64
}

/// Reference angle of the vector (dx, dy) in [0, 2*pi).
fn reference_angle(dx: f64, dy: f64) -> f64 {
    let a = dy.atan2(dx);
    if a < 0.0 {
        a + 2.0 * std::f64::consts::PI
    } else {
        a
    }
}

fn circular_diff(a: f64, b: f64) -> f64 {
    let two_pi = 2.0 * std::f64::consts::PI;
    let d = (a - b).abs() % two_pi;
    if d > std::f64::consts::PI {
        two_pi - d
    } else {
        d
    }
}

#[test]
fn angle_matches_reference_arctangent_in_all_quadrants() {
    let a = (10 * ONE, 20 * ONE);
    let mut dx: i64 = -200;
    while dx <= 200 {
        let mut dy: i64 = -200;
        while dy <= 200 {
            if dx != 0 || dy != 0 {
                let b = (a.0 + dx * ONE, a.1 + dy * ONE);
                let got = bits_to_rad(angle_between(a, b));
                let want = reference_angle(dx as f64, dy as f64);
                assert!(
                    circular_diff(got, want) < 0.01,
                    "dx {dx} dy {dy}: got {got}, want {want}"
                );
            }
            dy += 40;
        }
        dx += 40;
    }
}

#[test]
fn angle_is_right_on_the_axes() {
    let a = (0, 0);
    let cases = [
        ((5 * ONE, 0), 0.0f64),
        ((0, 5 * ONE), std::f64::consts::FRAC_PI_2),
        ((-5 * ONE, 0), std::f64::consts::PI),
        ((0, -5 * ONE), 3.0 * std::f64::consts::FRAC_PI_2),
    ];
    let mut i: usize = 0;
    while i < cases.len() {
        let (b, want) = cases[i];
        let got = bits_to_rad(angle_between(a, b));
        assert!(circular_diff(got, want) < 0.01, "case {i}: got {got}, want {want}");
        i += 1;
    }
}

#[test]
fn angle_is_continuous_across_branch_boundaries() {
    // Just either side of each axis the angles must nearly agree.
    let a = (0, 0);
    let pairs = [
        ((100 * ONE, 1), (100 * ONE, -1)),
        ((1, 100 * ONE), (-1, 100 * ONE)),
        ((-100 * ONE, 1), (-100 * ONE, -1)),
        ((1, -100 * ONE), (-1, -100 * ONE)),
    ];
    let mut i: usize = 0;
    while i < pairs.len() {
        let (b1, b2) = pairs[i];
        let g1 = bits_to_rad(angle_between(a, b1));
        let g2 = bits_to_rad(angle_between(a, b2));
        assert!(circular_diff(g1, g2) < 0.01, "pair {i}: {g1} vs {g2}");
        i += 1;
    }
}

#[test]
fn coincident_points_get_angle_zero() {
    assert_eq!(angle_between((7 * ONE, -3 * ONE), (7 * ONE, -3 * ONE)), 0);
}

#[test]
fn cosine_of_thirty_degrees() {
    // pi/6 is 34315 bits; cos is 0.8660: an unchanged argument would
    // differ by far more than the tolerance.
    let got = cos_angle(34315) as f64 / ONE as f64;
    assert!((got - 0.8660254).abs() < 0.01, "got {got}");
}

#[test]
fn sine_of_thirty_degrees() {
    let got = sin_angle(34315) as f64 / ONE as f64;
    assert!((got - 0.5).abs() < 0.01, "got {got}");
}

#[test]
fn cosine_is_periodic_by_reduction() {
    assert_eq!(cos_angle(34315), cos_angle(TWO_PI_BITS + 34315));
    assert_eq!(sin_angle(-TWO_PI_BITS + 34315), sin_angle(34315));
}

#[test]
fn arctangent_of_one_is_a_quarter_turn_half() {
    // angle_between feeds the ratio 1 to the arc-tangent here; an
    // unchanged argument would give a full unit, not pi/4.
    let got = bits_to_rad(angle_between((0, 0), (ONE, ONE)));
    assert!((got - std::f64::consts::FRAC_PI_4).abs() < 0.01, "got {got}");
}
