use lindqvist_ice::lindqvist::aggregate;
use lindqvist_ice::lindqvist::bending_resistance;
use lindqvist_ice::lindqvist::compute;
use lindqvist_ice::lindqvist::crushing_resistance;
use lindqvist_ice::lindqvist::submersion_resistance;
use lindqvist_ice::lindqvist::total_resistance;
use lindqvist_ice::rational::Rat;

fn value(r: &Rat) -> f64 {
    r.num as f64 / r.den as f64
}

fn rel_close(a: f64, b: f64, tol: f64) -> bool {
    (a - b).abs() <= tol * a.abs().max(b.abs())
}

// The reference scenario: L=100 m, B=20 m, T=8 m, v=5, trim 10 deg,
// keel 20 deg, waterline 30 deg, ice 0.5 m. The trigonometric values
// and roots are rational approximations with denominators up to 1000.
const TAN_PHI: (i128, i128) = (143, 811);
const COS_PHI: (i128, i128) = (713, 724);
const SIN_PHI: (i128, i128) = (170, 979);
const COS_PSI: (i128, i128) = (857, 912);
const TAN_PSI: (i128, i128) = (99, 272);
const SIN_ALPHA: (i128, i128) = (1, 2);
const TAN_ALPHA: (i128, i128) = (571, 989);
const H_POW: (i128, i128) = (204, 577);
const SQRT_GH: (i128, i128) = (361, 163);
const SQRT_GL: (i128, i128) = (28596, 913);

fn rat(p: (i128, i128)) -> Rat {
    Rat::new(p.0, p.1)
}

fn f(p: (i128, i128)) -> f64 {
    p.0 as f64 / p.1 as f64
}

fn scenario_crushing() -> Rat {
    crushing_resistance(
        &Rat::new(1, 2),
        &rat(TAN_PHI),
        &rat(COS_PHI),
        &rat(SIN_PHI),
        &rat(COS_PSI),
    )
}

fn scenario_bending() -> Rat {
    bending_resistance(
        &Rat::from_int(20),
        &rat(H_POW),
        &rat(TAN_PSI),
        &rat(COS_PHI),
        &rat(SIN_ALPHA),
        &rat(COS_PSI),
    )
}

fn scenario_submersion() -> Rat {
    submersion_resistance(
        &Rat::from_int(100),
        &Rat::from_int(20),
        &Rat::from_int(8),
        &Rat::new(1, 2),
        &rat(TAN_PHI),
        &rat(TAN_ALPHA),
        &rat(COS_PHI),
        &rat(COS_PSI),
        &rat(SIN_PHI),
    )
}

#[test]
fn crushing_matches_the_formula() {
    let rc = scenario_crushing();
    assert!(rc.den > 0);
    let (tp, cp, sp, cq) = (f(TAN_PHI), f(COS_PHI), f(SIN_PHI), f(COS_PSI));
    let h = 0.5f64;
    let expected = 0.5 * 500000.0 * h * h * (tp + 0.3 * cp / cq) / (1.0 - 0.3 * sp / cq);
    assert!(rel_close(value(&rc), expected, 1e-9));
    assert!(rel_close(value(&rc), 32470.592142378533, 1e-9));
}

#[test]
fn bending_matches_the_formula() {
    let rb = scenario_bending();
    assert!(rb.den > 0);
    let (tq, cp, sa, cq) = (f(TAN_PSI), f(COS_PHI), f(SIN_ALPHA), f(COS_PSI));
    let expected =
        0.003 * 500000.0 * 20.0 * f(H_POW) * (tq + 0.3 * cp / (sa * cq) * (1.0 + 1.0 / cq));
    assert!(rel_close(value(&rb), expected, 1e-9));
    assert!(rel_close(value(&rb), 17627.47062356027, 1e-9));
}

#[test]
fn submersion_matches_the_formula() {
    let rs = scenario_submersion();
    assert!(rs.den > 0);
    let (tp, ta, cp, cq, sp) = (f(TAN_PHI), f(TAN_ALPHA), f(COS_PHI), f(COS_PSI), f(SIN_PHI));
    let (l, b, t, h) = (100.0f64, 20.0f64, 8.0f64, 0.5f64);
    let expected = 105.0 * 9.81 * h * b
        * (t * (b + t) / (b + 2.0 * t)
            + 0.3
                * (0.7 * l - t / tp
                    - b / (4.0 * ta + t * cp * cq * (1.0 / (sp * sp) + 1.0 / (ta * ta)))));
    assert!(rel_close(value(&rs), expected, 1e-9));
    assert!(rel_close(value(&rs), 139971.58663756767, 1e-9));
}

#[test]
fn compute_returns_the_components_in_order() {
    let (rc, rb, rs) = compute(
        &Rat::from_int(100),
        &Rat::from_int(20),
        &Rat::from_int(8),
        &Rat::new(1, 2),
        &rat(H_POW),
        &rat(TAN_PHI),
        &rat(COS_PHI),
        &rat(SIN_PHI),
        &rat(TAN_PSI),
        &rat(COS_PSI),
        &rat(SIN_ALPHA),
        &rat(TAN_ALPHA),
    );
    let c = scenario_crushing();
    let b = scenario_bending();
    let s = scenario_submersion();
    assert_eq!((rc.num, rc.den), (c.num, c.den));
    assert_eq!((rb.num, rb.den), (b.num, b.den));
    assert_eq!((rs.num, rs.den), (s.num, s.den));
}

#[test]
fn aggregate_has_the_exact_value() {
    let r = aggregate(
        &Rat::from_int(1000),
        &Rat::from_int(500),
        &Rat::from_int(2000),
        &Rat::from_int(5),
        &Rat::new(2215, 1000),
        &Rat::new(31321, 1000),
    );
    assert_eq!((r.num, r.den), (77989655250000, 6937601500));
    assert!(rel_close(value(&r), 11241.587636591696, 1e-12));
}

#[test]
fn scenario_total_resistance_reproduces_the_pinned_value() {
    // Component values restated over small denominators, so that the
    // aggregation of this scenario stays within `i128`; each is within
    // a relative 1e-7 of the exact component above.
    let rc = Rat::new(149592018, 4607);
    let rb = Rat::new(176116059, 9991);
    let rs = Rat::new(1154345675, 8247);
    assert!(rel_close(value(&rc), value(&scenario_crushing()), 1e-7));
    assert!(rel_close(value(&rb), value(&scenario_bending()), 1e-7));
    assert!(rel_close(value(&rs), value(&scenario_submersion()), 1e-7));
    let total = aggregate(&rc, &rb, &rs, &Rat::from_int(5), &rat(SQRT_GH), &rat(SQRT_GL));
    assert!(total.den > 0);
    let expected = (value(&rc) + value(&rb)) * (1.0 + 1.4 * 5.0 / f(SQRT_GH))
        + value(&rs) * (1.0 + 9.4 * 5.0 / f(SQRT_GL));
    assert!(rel_close(value(&total), expected, 1e-9));
    // The pinned scenario value, in newtons and in kilonewtons.
    assert!(rel_close(value(&total), 558453.4254237226, 1e-6));
    assert!((value(&total) / 1000.0 - 558.4534254237226).abs() < 1e-4);
}

#[test]
fn zero_thickness_gives_zero_components() {
    let zero = Rat::new(0, 1);
    let rc = crushing_resistance(&zero, &rat(TAN_PHI), &rat(COS_PHI), &rat(SIN_PHI), &rat(COS_PSI));
    assert_eq!(rc.num, 0);
    let rb = bending_resistance(
        &Rat::from_int(20),
        &zero,
        &rat(TAN_PSI),
        &rat(COS_PHI),
        &rat(SIN_ALPHA),
        &rat(COS_PSI),
    );
    assert_eq!(rb.num, 0);
    let rs = submersion_resistance(
        &Rat::from_int(100),
        &Rat::from_int(20),
        &Rat::from_int(8),
        &zero,
        &rat(TAN_PHI),
        &rat(TAN_ALPHA),
        &rat(COS_PHI),
        &rat(COS_PSI),
        &rat(SIN_PHI),
    );
    assert_eq!(rs.num, 0);
}

#[test]
fn zero_components_aggregate_to_zero() {
    let zero = Rat::new(0, 1);
    let r = aggregate(
        &zero,
        &zero,
        &zero,
        &Rat::from_int(5),
        &rat(SQRT_GH),
        &rat(SQRT_GL),
    );
    assert_eq!(r.num, 0);
}

#[test]
fn doubling_thickness_quadruples_crushing() {
    let tan_phi = Rat::new(1, 4);
    let cos_phi = Rat::new(15, 16);
    let sin_phi = Rat::new(1, 4);
    let cos_psi = Rat::new(15, 16);
    let rc1 = crushing_resistance(&Rat::new(1, 2), &tan_phi, &cos_phi, &sin_phi, &cos_psi);
    let rc2 = crushing_resistance(&Rat::from_int(1), &tan_phi, &cos_phi, &sin_phi, &cos_psi);
    // Exact rational comparison by cross multiplication.
    assert_eq!(rc2.num * rc1.den, 4 * rc1.num * rc2.den);
}

#[test]
fn bending_is_linear_in_the_thickness_power() {
    let tan_psi = Rat::new(1, 4);
    let cos_phi = Rat::new(15, 16);
    let sin_alpha = Rat::new(1, 2);
    let cos_psi = Rat::new(15, 16);
    let b = Rat::from_int(20);
    let rb1 = bending_resistance(&b, &Rat::new(1, 3), &tan_psi, &cos_phi, &sin_alpha, &cos_psi);
    let rb3 = bending_resistance(&b, &Rat::new(3, 3), &tan_psi, &cos_phi, &sin_alpha, &cos_psi);
    assert_eq!(rb3.num * rb1.den, 3 * rb1.num * rb3.den);
}

#[test]
fn aggregate_never_decreases_with_speed() {
    let rc = Rat::from_int(1000);
    let rb = Rat::from_int(500);
    let rs = Rat::from_int(2000);
    let s1 = Rat::new(2215, 1000);
    let s2 = Rat::new(31321, 1000);
    let slow = aggregate(&rc, &rb, &rs, &Rat::from_int(5), &s1, &s2);
    let fast = aggregate(&rc, &rb, &rs, &Rat::from_int(6), &s1, &s2);
    assert!(fast.num * slow.den >= slow.num * fast.den);
}

#[test]
fn thin_ice_stays_finite() {
    // Ice thickness of a billionth of a meter: far from degenerate,
    // the result is a well-formed, positive, very small force.
    let h = Rat::new(1, 1000000000);
    let rc = crushing_resistance(&h, &rat(TAN_PHI), &rat(COS_PHI), &rat(SIN_PHI), &rat(COS_PSI));
    assert!(rc.den > 0);
    assert!(value(&rc) > 0.0 && value(&rc).is_finite());
    let rs = submersion_resistance(
        &Rat::from_int(100),
        &Rat::from_int(20),
        &Rat::from_int(8),
        &h,
        &rat(TAN_PHI),
        &rat(TAN_ALPHA),
        &rat(COS_PHI),
        &rat(COS_PSI),
        &rat(SIN_PHI),
    );
    assert!(rs.den > 0);
    assert!(value(&rs) > 0.0 && value(&rs).is_finite());
    // Aggregation with the matching tiny root sqrt(g*h) stays finite.
    let tiny_root = Rat::new(229, 2312070);
    let total = aggregate(
        &Rat::new(13, 100000000000000),
        &Rat::new(16, 10000000000),
        &Rat::new(28, 100000),
        &Rat::from_int(5),
        &tiny_root,
        &rat(SQRT_GL),
    );
    assert!(total.den > 0);
    assert!(value(&total) > 0.0 && value(&total).is_finite());
}

#[test]
fn total_resistance_is_zero_at_zero_thickness() {
    // The caller-level rule: thickness exactly zero short-circuits to
    // an exact zero, whatever the other parameters.
    let r = total_resistance(
        &Rat::from_int(100),
        &Rat::from_int(20),
        &Rat::from_int(8),
        &Rat::new(0, 1),
        &Rat::new(0, 1),
        &rat(TAN_PHI),
        &rat(COS_PHI),
        &rat(SIN_PHI),
        &rat(TAN_PSI),
        &rat(COS_PSI),
        &rat(SIN_ALPHA),
        &rat(TAN_ALPHA),
        &Rat::from_int(5),
        &rat(SQRT_GH),
        &rat(SQRT_GL),
    );
    assert_eq!((r.num, r.den), (0, 1));
}

#[test]
fn total_resistance_matches_the_formula_end_to_end() {
    // Inputs over eighths, so that the unreduced pipeline stays within
    // `i128`: a 10 m boat in half a meter of ice.
    let r = total_resistance(
        &Rat::from_int(10),
        &Rat::from_int(4),
        &Rat::from_int(2),
        &Rat::new(1, 2),
        &Rat::new(3, 8),
        &Rat::new(1, 4),
        &Rat::new(7, 8),
        &Rat::new(1, 4),
        &Rat::new(3, 8),
        &Rat::new(7, 8),
        &Rat::new(1, 2),
        &Rat::new(5, 8),
        &Rat::from_int(2),
        &Rat::new(9, 4),
        &Rat::new(39, 4),
    );
    assert!(r.den > 0);
    let (l, b, t, h, hp) = (10.0f64, 4.0f64, 2.0f64, 0.5f64, 0.375f64);
    let (tp, cp, sp, tq, cq, sa, ta) = (0.25, 0.875, 0.25, 0.375, 0.875, 0.5, 0.625);
    let (v, s1, s2) = (2.0f64, 2.25f64, 9.75f64);
    let rc = 0.5 * 500000.0 * h * h * (tp + 0.3 * cp / cq) / (1.0 - 0.3 * sp / cq);
    let rb = 0.003 * 500000.0 * b * hp * (tq + 0.3 * cp / (sa * cq) * (1.0 + 1.0 / cq));
    let rs = 105.0 * 9.81 * h * b
        * (t * (b + t) / (b + 2.0 * t)
            + 0.3
                * (0.7 * l - t / tp
                    - b / (4.0 * ta + t * cp * cq * (1.0 / (sp * sp) + 1.0 / (ta * ta)))));
    let expected = (rc + rb) * (1.0 + 1.4 * v / s1) + rs * (1.0 + 9.4 * v / s2);
    assert!(rel_close(value(&r), expected, 1e-9));
    assert!(rel_close(value(&r), 99777.21604846687, 1e-9));
}

#[test]
fn evaluation_is_deterministic() {
    let first = scenario_crushing();
    let second = scenario_crushing();
    assert_eq!((first.num, first.den), (second.num, second.den));
    let s1 = scenario_submersion();
    let s2 = scenario_submersion();
    assert_eq!((s1.num, s1.den), (s2.num, s2.den));
}
