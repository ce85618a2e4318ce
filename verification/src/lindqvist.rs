//! The Lindqvist level-ice resistance formulas.
//!
//! Three component forces — crushing at the bow, bending failure of
//! the ice sheet, and submersion of broken ice along the hull — and
//! the speed-corrected total. All arithmetic is exact over rationals;
//! the transcendental quantities (tangent, sine and cosine of the trim
//! angle `phi`, the keel angle `psi` and the waterline angle `alpha`,
//! the power `h^1.5`, and the square roots of `g*h` and `g*L`) enter
//! as rational-valued inputs.

use crate::constants::q_bending_strength;
use crate::constants::q_density_difference;
use crate::constants::q_friction;
use crate::constants::q_gravity;
use crate::rational::fits_add;
use crate::rational::fits_div;
use crate::rational::fits_mul;
use crate::rational::fits_sub;
use crate::rational::lemma_mul_zero;
use crate::rational::lemma_q_add_nonneg;
use crate::rational::lemma_q_add_wf;
use crate::rational::lemma_q_div_wf;
use crate::rational::lemma_q_le_add;
use crate::rational::lemma_q_le_mul_left;
use crate::rational::lemma_q_mul_wf;
use crate::rational::lemma_q_sub_wf;
use crate::rational::q_add;
use crate::rational::q_div;
use crate::rational::q_eq;
use crate::rational::q_int;
use crate::rational::q_le;
use crate::rational::q_mul;
use crate::rational::q_nonneg;
use crate::rational::q_sub;
use crate::rational::q_wf;
use crate::rational::q_zero;
use crate::rational::rat_add;
use crate::rational::rat_div;
use crate::rational::rat_mul;
use crate::rational::rat_sub;
use crate::rational::Q;
use crate::rational::Rat;
use vstd::prelude::*;

verus! {

/// The factor 0.5 of the crushing term.
pub open spec fn q_half() -> Q {
    Q { n: 1, d: 2 }
}

/// Numerator bracket of the crushing force:
/// `tan(phi) + mu * cos(phi) / cos(psi)`.
pub open spec fn q_crushing_numer(tan_phi: Q, cos_phi: Q, cos_psi: Q) -> Q {
    q_add(tan_phi, q_mul(q_friction(), q_div(cos_phi, cos_psi)))
}

/// Denominator bracket of the crushing force:
/// `1 - mu * sin(phi) / cos(psi)`.
pub open spec fn q_crushing_denom(sin_phi: Q, cos_psi: Q) -> Q {
    q_sub(q_int(1), q_mul(q_friction(), q_div(sin_phi, cos_psi)))
}

/// Crushing force at the bow:
/// `0.5 * sigma_b * h^2 * numer / denom`.
pub open spec fn q_crushing(h: Q, tan_phi: Q, cos_phi: Q, sin_phi: Q, cos_psi: Q) -> Q {
    q_mul(
        q_mul(q_mul(q_half(), q_bending_strength()), q_mul(h, h)),
        q_div(
            q_crushing_numer(tan_phi, cos_phi, cos_psi),
            q_crushing_denom(sin_phi, cos_psi),
        ),
    )
}

/// Every intermediate of the crushing computation fits in `i128`; this
/// is exactly what the machine word forces, nothing narrower.
pub open spec fn crushing_fits(h: Q, tan_phi: Q, cos_phi: Q, sin_phi: Q, cos_psi: Q) -> bool {
    let hs = q_mul(q_half(), q_bending_strength());
    let h2 = q_mul(h, h);
    let c = q_mul(hs, h2);
    let d1 = q_div(cos_phi, cos_psi);
    let m1 = q_mul(q_friction(), d1);
    let numer = q_add(tan_phi, m1);
    let d2 = q_div(sin_phi, cos_psi);
    let m2 = q_mul(q_friction(), d2);
    let denom = q_sub(q_int(1), m2);
    let frac = q_div(numer, denom);
    &&& fits_mul(q_half(), q_bending_strength())
    &&& fits_mul(h, h)
    &&& fits_mul(hs, h2)
    &&& fits_div(cos_phi, cos_psi)
    &&& fits_mul(q_friction(), d1)
    &&& fits_add(tan_phi, m1)
    &&& fits_div(sin_phi, cos_psi)
    &&& fits_mul(q_friction(), d2)
    &&& fits_sub(q_int(1), m2)
    &&& fits_div(numer, denom)
    &&& fits_mul(c, frac)
}

/// Ice crushing force at the bow, exactly as the Lindqvist crushing
/// term states it. The result is a finite rational whenever the keel
/// cosine and the crushing denominator are nonzero.
pub fn crushing_resistance(
    h: &Rat,
    tan_phi: &Rat,
    cos_phi: &Rat,
    sin_phi: &Rat,
    cos_psi: &Rat,
) -> (r: Rat)
    requires
        q_wf(h@),
        q_wf(tan_phi@),
        q_wf(cos_phi@),
        q_wf(sin_phi@),
        q_wf(cos_psi@),
        cos_psi@.n != 0,
        q_crushing_denom(sin_phi@, cos_psi@).n != 0,
        crushing_fits(h@, tan_phi@, cos_phi@, sin_phi@, cos_psi@),
    ensures
        r@ == q_crushing(h@, tan_phi@, cos_phi@, sin_phi@, cos_psi@),
        q_wf(r@),
{
    let half = Rat::new(1, 2);
    let sigma = Rat::from_int(500000);
    let mu = Rat::new(3, 10);
    let one = Rat::from_int(1);
    let hs = rat_mul(&half, &sigma);
    let h2 = rat_mul(h, h);
    let c = rat_mul(&hs, &h2);
    let d1 = rat_div(cos_phi, cos_psi);
    let m1 = rat_mul(&mu, &d1);
    let numer = rat_add(tan_phi, &m1);
    let d2 = rat_div(sin_phi, cos_psi);
    let m2 = rat_mul(&mu, &d2);
    let denom = rat_sub(&one, &m2);
    let frac = rat_div(&numer, &denom);
    rat_mul(&c, &frac)
}

/// The empirical factor 0.003 of the bending term.
pub open spec fn q_bending_coefficient() -> Q {
    Q { n: 3, d: 1000 }
}

/// Bracket of the bending force:
/// `tan(psi) + mu * cos(phi) / (sin(alpha) * cos(psi)) * (1 + 1 / cos(psi))`.
pub open spec fn q_bending_bracket(tan_psi: Q, cos_phi: Q, sin_alpha: Q, cos_psi: Q) -> Q {
    q_add(
        tan_psi,
        q_mul(
            q_mul(q_friction(), q_div(cos_phi, q_mul(sin_alpha, cos_psi))),
            q_add(q_int(1), q_div(q_int(1), cos_psi)),
        ),
    )
}

/// Bending failure force of the ice sheet:
/// `0.003 * sigma_b * B * h^1.5 * bracket`, where the power `h^1.5`
/// enters as the input `h_pow`.
pub open spec fn q_bending(b: Q, h_pow: Q, tan_psi: Q, cos_phi: Q, sin_alpha: Q, cos_psi: Q) -> Q {
    q_mul(
        q_mul(q_mul(q_bending_coefficient(), q_bending_strength()), q_mul(b, h_pow)),
        q_bending_bracket(tan_psi, cos_phi, sin_alpha, cos_psi),
    )
}

/// Every intermediate of the bending computation fits in `i128`.
pub open spec fn bending_fits(b: Q, h_pow: Q, tan_psi: Q, cos_phi: Q, sin_alpha: Q, cos_psi: Q) -> bool {
    let cs = q_mul(q_bending_coefficient(), q_bending_strength());
    let bh = q_mul(b, h_pow);
    let c = q_mul(cs, bh);
    let sc = q_mul(sin_alpha, cos_psi);
    let d1 = q_div(cos_phi, sc);
    let m1 = q_mul(q_friction(), d1);
    let d2 = q_div(q_int(1), cos_psi);
    let a2 = q_add(q_int(1), d2);
    let m2 = q_mul(m1, a2);
    let bracket = q_add(tan_psi, m2);
    &&& fits_mul(q_bending_coefficient(), q_bending_strength())
    &&& fits_mul(b, h_pow)
    &&& fits_mul(cs, bh)
    &&& fits_mul(sin_alpha, cos_psi)
    &&& fits_div(cos_phi, sc)
    &&& fits_mul(q_friction(), d1)
    &&& fits_div(q_int(1), cos_psi)
    &&& fits_add(q_int(1), d2)
    &&& fits_mul(m1, a2)
    &&& fits_add(tan_psi, m2)
    &&& fits_mul(c, bracket)
}

/// Bending failure force of the ice sheet, exactly as the Lindqvist
/// bending term states it.
pub fn bending_resistance(
    b: &Rat,
    h_pow: &Rat,
    tan_psi: &Rat,
    cos_phi: &Rat,
    sin_alpha: &Rat,
    cos_psi: &Rat,
) -> (r: Rat)
    requires
        q_wf(b@),
        q_wf(h_pow@),
        q_wf(tan_psi@),
        q_wf(cos_phi@),
        q_wf(sin_alpha@),
        q_wf(cos_psi@),
        sin_alpha@.n != 0,
        cos_psi@.n != 0,
        bending_fits(b@, h_pow@, tan_psi@, cos_phi@, sin_alpha@, cos_psi@),
    ensures
        r@ == q_bending(b@, h_pow@, tan_psi@, cos_phi@, sin_alpha@, cos_psi@),
        q_wf(r@),
{
    let coeff = Rat::new(3, 1000);
    let sigma = Rat::from_int(500000);
    let mu = Rat::new(3, 10);
    let one = Rat::from_int(1);
    let cs = rat_mul(&coeff, &sigma);
    let bh = rat_mul(b, h_pow);
    let c = rat_mul(&cs, &bh);
    let sc = rat_mul(sin_alpha, cos_psi);
    proof {
        assert(sc@.n != 0) by (nonlinear_arith)
            requires
                sc@.n == sin_alpha@.n * cos_psi@.n,
                sin_alpha@.n != 0,
                cos_psi@.n != 0,
        ;
    }
    let d1 = rat_div(cos_phi, &sc);
    let m1 = rat_mul(&mu, &d1);
    let d2 = rat_div(&one, cos_psi);
    let a2 = rat_add(&one, &d2);
    let m2 = rat_mul(&m1, &a2);
    let bracket = rat_add(tan_psi, &m2);
    rat_mul(&c, &bracket)
}

/// The empirical factor 0.7 of the hull friction term.
pub open spec fn q_seven_tenths() -> Q {
    Q { n: 7, d: 10 }
}

/// Denominator of the draft term of the submersion force: `B + 2*T`.
pub open spec fn q_submersion_depth_denom(b: Q, t: Q) -> Q {
    q_add(b, q_mul(q_int(2), t))
}

/// Denominator of the clearing term of the submersion force:
/// `4*tan(alpha) + T*cos(phi)*cos(psi)*(1/sin(phi)^2 + 1/tan(alpha)^2)`.
pub open spec fn q_submersion_clearing_denom(
    t: Q,
    tan_alpha: Q,
    cos_phi: Q,
    cos_psi: Q,
    sin_phi: Q,
) -> Q {
    q_add(
        q_mul(q_int(4), tan_alpha),
        q_mul(
            q_mul(t, q_mul(cos_phi, cos_psi)),
            q_add(
                q_div(q_int(1), q_mul(sin_phi, sin_phi)),
                q_div(q_int(1), q_mul(tan_alpha, tan_alpha)),
            ),
        ),
    )
}

/// Submersion and friction force along the hull:
/// `(rho_w - rho_i) * g * h * B
///  * (T*(B+T)/(B+2*T)
///     + mu*(0.7*L - T/tan(phi) - B/clearing_denom))`.
pub open spec fn q_submersion(
    l: Q,
    b: Q,
    t: Q,
    h: Q,
    tan_phi: Q,
    tan_alpha: Q,
    cos_phi: Q,
    cos_psi: Q,
    sin_phi: Q,
) -> Q {
    q_mul(
        q_mul(q_mul(q_density_difference(), q_gravity()), q_mul(h, b)),
        q_add(
            q_div(q_mul(t, q_add(b, t)), q_submersion_depth_denom(b, t)),
            q_mul(
                q_friction(),
                q_sub(
                    q_sub(q_mul(q_seven_tenths(), l), q_div(t, tan_phi)),
                    q_div(b, q_submersion_clearing_denom(t, tan_alpha, cos_phi, cos_psi, sin_phi)),
                ),
            ),
        ),
    )
}

/// Every intermediate of the submersion computation fits in `i128`.
pub open spec fn submersion_fits(
    l: Q,
    b: Q,
    t: Q,
    h: Q,
    tan_phi: Q,
    tan_alpha: Q,
    cos_phi: Q,
    cos_psi: Q,
    sin_phi: Q,
) -> bool {
    let bt = q_add(b, t);
    let tbt = q_mul(t, bt);
    let t2 = q_mul(q_int(2), t);
    let b2t = q_add(b, t2);
    let term1 = q_div(tbt, b2t);
    let s2 = q_mul(sin_phi, sin_phi);
    let i1 = q_div(q_int(1), s2);
    let ta2 = q_mul(tan_alpha, tan_alpha);
    let i2 = q_div(q_int(1), ta2);
    let inner = q_add(i1, i2);
    let cc = q_mul(cos_phi, cos_psi);
    let tcc = q_mul(t, cc);
    let m3 = q_mul(tcc, inner);
    let fta = q_mul(q_int(4), tan_alpha);
    let dd = q_add(fta, m3);
    let qq = q_div(b, dd);
    let sl = q_mul(q_seven_tenths(), l);
    let tt = q_div(t, tan_phi);
    let x1 = q_sub(sl, tt);
    let x2 = q_sub(x1, qq);
    let term2 = q_mul(q_friction(), x2);
    let brsum = q_add(term1, term2);
    let c1 = q_mul(q_density_difference(), q_gravity());
    let hb = q_mul(h, b);
    let c2 = q_mul(c1, hb);
    &&& fits_add(b, t)
    &&& fits_mul(t, bt)
    &&& fits_mul(q_int(2), t)
    &&& fits_add(b, t2)
    &&& fits_div(tbt, b2t)
    &&& fits_mul(sin_phi, sin_phi)
    &&& fits_div(q_int(1), s2)
    &&& fits_mul(tan_alpha, tan_alpha)
    &&& fits_div(q_int(1), ta2)
    &&& fits_add(i1, i2)
    &&& fits_mul(cos_phi, cos_psi)
    &&& fits_mul(t, cc)
    &&& fits_mul(tcc, inner)
    &&& fits_mul(q_int(4), tan_alpha)
    &&& fits_add(fta, m3)
    &&& fits_div(b, dd)
    &&& fits_mul(q_seven_tenths(), l)
    &&& fits_div(t, tan_phi)
    &&& fits_sub(sl, tt)
    &&& fits_sub(x1, qq)
    &&& fits_mul(q_friction(), x2)
    &&& fits_add(term1, term2)
    &&& fits_mul(q_density_difference(), q_gravity())
    &&& fits_mul(h, b)
    &&& fits_mul(c1, hb)
    &&& fits_mul(c2, brsum)
}

/// Submersion and friction force along the hull, exactly as the
/// Lindqvist submersion term states it.
pub fn submersion_resistance(
    l: &Rat,
    b: &Rat,
    t: &Rat,
    h: &Rat,
    tan_phi: &Rat,
    tan_alpha: &Rat,
    cos_phi: &Rat,
    cos_psi: &Rat,
    sin_phi: &Rat,
) -> (r: Rat)
    requires
        q_wf(l@),
        q_wf(b@),
        q_wf(t@),
        q_wf(h@),
        q_wf(tan_phi@),
        q_wf(tan_alpha@),
        q_wf(cos_phi@),
        q_wf(cos_psi@),
        q_wf(sin_phi@),
        tan_phi@.n != 0,
        tan_alpha@.n != 0,
        sin_phi@.n != 0,
        q_submersion_depth_denom(b@, t@).n != 0,
        q_submersion_clearing_denom(t@, tan_alpha@, cos_phi@, cos_psi@, sin_phi@).n != 0,
        submersion_fits(l@, b@, t@, h@, tan_phi@, tan_alpha@, cos_phi@, cos_psi@, sin_phi@),
    ensures
        r@ == q_submersion(l@, b@, t@, h@, tan_phi@, tan_alpha@, cos_phi@, cos_psi@, sin_phi@),
        q_wf(r@),
{
    let one = Rat::from_int(1);
    let two = Rat::from_int(2);
    let four = Rat::from_int(4);
    let mu = Rat::new(3, 10);
    let seven_tenths = Rat::new(7, 10);
    let rho_diff = Rat::from_int(105);
    let gravity = Rat::new(981, 100);
    let bt = rat_add(b, t);
    let tbt = rat_mul(t, &bt);
    let t2 = rat_mul(&two, t);
    let b2t = rat_add(b, &t2);
    let term1 = rat_div(&tbt, &b2t);
    let s2 = rat_mul(sin_phi, sin_phi);
    proof {
        assert(s2@.n != 0) by (nonlinear_arith)
            requires
                s2@.n == sin_phi@.n * sin_phi@.n,
                sin_phi@.n != 0,
        ;
    }
    let i1 = rat_div(&one, &s2);
    let ta2 = rat_mul(tan_alpha, tan_alpha);
    proof {
        assert(ta2@.n != 0) by (nonlinear_arith)
            requires
                ta2@.n == tan_alpha@.n * tan_alpha@.n,
                tan_alpha@.n != 0,
        ;
    }
    let i2 = rat_div(&one, &ta2);
    let inner = rat_add(&i1, &i2);
    let cc = rat_mul(cos_phi, cos_psi);
    let tcc = rat_mul(t, &cc);
    let m3 = rat_mul(&tcc, &inner);
    let fta = rat_mul(&four, tan_alpha);
    let dd = rat_add(&fta, &m3);
    let qq = rat_div(b, &dd);
    let sl = rat_mul(&seven_tenths, l);
    let tt = rat_div(t, tan_phi);
    let x1 = rat_sub(&sl, &tt);
    let x2 = rat_sub(&x1, &qq);
    let term2 = rat_mul(&mu, &x2);
    let brsum = rat_add(&term1, &term2);
    let c1 = rat_mul(&rho_diff, &gravity);
    let hb = rat_mul(h, b);
    let c2 = rat_mul(&c1, &hb);
    rat_mul(&c2, &brsum)
}

/// The three resistance components `(Rc, Rb, Rs)`, in this order:
/// crushing, bending, submersion.
pub fn compute(
    l: &Rat,
    b: &Rat,
    t: &Rat,
    h: &Rat,
    h_pow: &Rat,
    tan_phi: &Rat,
    cos_phi: &Rat,
    sin_phi: &Rat,
    tan_psi: &Rat,
    cos_psi: &Rat,
    sin_alpha: &Rat,
    tan_alpha: &Rat,
) -> (r: (Rat, Rat, Rat))
    requires
        q_wf(l@),
        q_wf(b@),
        q_wf(t@),
        q_wf(h@),
        q_wf(h_pow@),
        q_wf(tan_phi@),
        q_wf(cos_phi@),
        q_wf(sin_phi@),
        q_wf(tan_psi@),
        q_wf(cos_psi@),
        q_wf(sin_alpha@),
        q_wf(tan_alpha@),
        cos_psi@.n != 0,
        sin_alpha@.n != 0,
        sin_phi@.n != 0,
        tan_phi@.n != 0,
        tan_alpha@.n != 0,
        q_crushing_denom(sin_phi@, cos_psi@).n != 0,
        q_submersion_depth_denom(b@, t@).n != 0,
        q_submersion_clearing_denom(t@, tan_alpha@, cos_phi@, cos_psi@, sin_phi@).n != 0,
        crushing_fits(h@, tan_phi@, cos_phi@, sin_phi@, cos_psi@),
        bending_fits(b@, h_pow@, tan_psi@, cos_phi@, sin_alpha@, cos_psi@),
        submersion_fits(l@, b@, t@, h@, tan_phi@, tan_alpha@, cos_phi@, cos_psi@, sin_phi@),
    ensures
        r.0@ == q_crushing(h@, tan_phi@, cos_phi@, sin_phi@, cos_psi@),
        r.1@ == q_bending(b@, h_pow@, tan_psi@, cos_phi@, sin_alpha@, cos_psi@),
        r.2@ == q_submersion(l@, b@, t@, h@, tan_phi@, tan_alpha@, cos_phi@, cos_psi@, sin_phi@),
        q_wf(r.0@) && q_wf(r.1@) && q_wf(r.2@),
{
    let rc = crushing_resistance(h, tan_phi, cos_phi, sin_phi, cos_psi);
    let rb = bending_resistance(b, h_pow, tan_psi, cos_phi, sin_alpha, cos_psi);
    let rs = submersion_resistance(l, b, t, h, tan_phi, tan_alpha, cos_phi, cos_psi, sin_phi);
    (rc, rb, rs)
}

/// The empirical speed coefficient 1.4 on the crushing and bending
/// components.
pub open spec fn q_bow_speed_coefficient() -> Q {
    Q { n: 14, d: 10 }
}

/// The empirical speed coefficient 9.4 on the submersion component.
pub open spec fn q_hull_speed_coefficient() -> Q {
    Q { n: 94, d: 10 }
}

/// A speed-correction multiplier: `1 + coeff * v / root`, where `root`
/// is the square root of `g*h` or of `g*L`.
pub open spec fn q_speed_factor(coeff: Q, v: Q, root: Q) -> Q {
    q_add(q_int(1), q_div(q_mul(coeff, v), root))
}

/// Speed-corrected total resistance:
/// `(Rc + Rb) * (1 + 1.4*v/sqrt(g*h)) + Rs * (1 + 9.4*v/sqrt(g*L))`,
/// where the square roots enter as the inputs `sqrt_gh` and `sqrt_gl`.
pub open spec fn q_aggregate(rc: Q, rb: Q, rs: Q, v: Q, sqrt_gh: Q, sqrt_gl: Q) -> Q {
    q_add(
        q_mul(q_add(rc, rb), q_speed_factor(q_bow_speed_coefficient(), v, sqrt_gh)),
        q_mul(rs, q_speed_factor(q_hull_speed_coefficient(), v, sqrt_gl)),
    )
}

/// Every intermediate of the aggregation fits in `i128`.
pub open spec fn aggregate_fits(rc: Q, rb: Q, rs: Q, v: Q, sqrt_gh: Q, sqrt_gl: Q) -> bool {
    let m1 = q_mul(q_bow_speed_coefficient(), v);
    let d1 = q_div(m1, sqrt_gh);
    let f1 = q_add(q_int(1), d1);
    let m2 = q_mul(q_hull_speed_coefficient(), v);
    let d2 = q_div(m2, sqrt_gl);
    let f2 = q_add(q_int(1), d2);
    let cb = q_add(rc, rb);
    let term1 = q_mul(cb, f1);
    let term2 = q_mul(rs, f2);
    &&& fits_mul(q_bow_speed_coefficient(), v)
    &&& fits_div(m1, sqrt_gh)
    &&& fits_add(q_int(1), d1)
    &&& fits_mul(q_hull_speed_coefficient(), v)
    &&& fits_div(m2, sqrt_gl)
    &&& fits_add(q_int(1), d2)
    &&& fits_add(rc, rb)
    &&& fits_mul(cb, f1)
    &&& fits_mul(rs, f2)
    &&& fits_add(term1, term2)
}

/// Speed-corrected total resistance, exactly as the Lindqvist speed
/// correction states it.
pub fn aggregate(
    rc: &Rat,
    rb: &Rat,
    rs: &Rat,
    v: &Rat,
    sqrt_gh: &Rat,
    sqrt_gl: &Rat,
) -> (r: Rat)
    requires
        q_wf(rc@),
        q_wf(rb@),
        q_wf(rs@),
        q_wf(v@),
        q_wf(sqrt_gh@),
        q_wf(sqrt_gl@),
        sqrt_gh@.n != 0,
        sqrt_gl@.n != 0,
        aggregate_fits(rc@, rb@, rs@, v@, sqrt_gh@, sqrt_gl@),
    ensures
        r@ == q_aggregate(rc@, rb@, rs@, v@, sqrt_gh@, sqrt_gl@),
        q_wf(r@),
{
    let one = Rat::from_int(1);
    let bow_coeff = Rat::new(14, 10);
    let hull_coeff = Rat::new(94, 10);
    let m1 = rat_mul(&bow_coeff, v);
    let d1 = rat_div(&m1, sqrt_gh);
    let f1 = rat_add(&one, &d1);
    let m2 = rat_mul(&hull_coeff, v);
    let d2 = rat_div(&m2, sqrt_gl);
    let f2 = rat_add(&one, &d2);
    let cb = rat_add(rc, rb);
    let term1 = rat_mul(&cb, &f1);
    let term2 = rat_mul(rs, &f2);
    rat_add(&term1, &term2)
}

/// The caller-level rule of the model: when the ice thickness is
/// exactly zero the resistance is defined as zero and the formulas are
/// never entered; otherwise the three components are aggregated with
/// the speed correction.
pub open spec fn q_total_resistance(
    l: Q,
    b: Q,
    t: Q,
    h: Q,
    h_pow: Q,
    tan_phi: Q,
    cos_phi: Q,
    sin_phi: Q,
    tan_psi: Q,
    cos_psi: Q,
    sin_alpha: Q,
    tan_alpha: Q,
    v: Q,
    sqrt_gh: Q,
    sqrt_gl: Q,
) -> Q {
    if h.n == 0 {
        q_zero()
    } else {
        q_aggregate(
            q_crushing(h, tan_phi, cos_phi, sin_phi, cos_psi),
            q_bending(b, h_pow, tan_psi, cos_phi, sin_alpha, cos_psi),
            q_submersion(l, b, t, h, tan_phi, tan_alpha, cos_phi, cos_psi, sin_phi),
            v,
            sqrt_gh,
            sqrt_gl,
        )
    }
}

/// The whole pipeline with its caller-level rule: exactly zero at zero
/// ice thickness — the formulas are never entered — and otherwise the
/// aggregated total of the three components.
pub fn total_resistance(
    l: &Rat,
    b: &Rat,
    t: &Rat,
    h: &Rat,
    h_pow: &Rat,
    tan_phi: &Rat,
    cos_phi: &Rat,
    sin_phi: &Rat,
    tan_psi: &Rat,
    cos_psi: &Rat,
    sin_alpha: &Rat,
    tan_alpha: &Rat,
    v: &Rat,
    sqrt_gh: &Rat,
    sqrt_gl: &Rat,
) -> (r: Rat)
    requires
        q_wf(l@),
        q_wf(b@),
        q_wf(t@),
        q_wf(h@),
        q_wf(h_pow@),
        q_wf(tan_phi@),
        q_wf(cos_phi@),
        q_wf(sin_phi@),
        q_wf(tan_psi@),
        q_wf(cos_psi@),
        q_wf(sin_alpha@),
        q_wf(tan_alpha@),
        q_wf(v@),
        q_wf(sqrt_gh@),
        q_wf(sqrt_gl@),
        h@.n != 0 ==> {
            &&& cos_psi@.n != 0
            &&& sin_alpha@.n != 0
            &&& sin_phi@.n != 0
            &&& tan_phi@.n != 0
            &&& tan_alpha@.n != 0
            &&& sqrt_gh@.n != 0
            &&& sqrt_gl@.n != 0
            &&& q_crushing_denom(sin_phi@, cos_psi@).n != 0
            &&& q_submersion_depth_denom(b@, t@).n != 0
            &&& q_submersion_clearing_denom(t@, tan_alpha@, cos_phi@, cos_psi@, sin_phi@).n != 0
            &&& crushing_fits(h@, tan_phi@, cos_phi@, sin_phi@, cos_psi@)
            &&& bending_fits(b@, h_pow@, tan_psi@, cos_phi@, sin_alpha@, cos_psi@)
            &&& submersion_fits(l@, b@, t@, h@, tan_phi@, tan_alpha@, cos_phi@, cos_psi@, sin_phi@)
            &&& aggregate_fits(
                q_crushing(h@, tan_phi@, cos_phi@, sin_phi@, cos_psi@),
                q_bending(b@, h_pow@, tan_psi@, cos_phi@, sin_alpha@, cos_psi@),
                q_submersion(l@, b@, t@, h@, tan_phi@, tan_alpha@, cos_phi@, cos_psi@, sin_phi@),
                v@,
                sqrt_gh@,
                sqrt_gl@,
            )
        },
    ensures
        r@ == q_total_resistance(
            l@, b@, t@, h@, h_pow@, tan_phi@, cos_phi@, sin_phi@, tan_psi@, cos_psi@,
            sin_alpha@, tan_alpha@, v@, sqrt_gh@, sqrt_gl@,
        ),
        q_wf(r@),
        h@.n == 0 ==> r@ == q_zero(),
{
    if h.num == 0 {
        Rat::from_int(0)
    } else {
        let (rc, rb, rs) = compute(
            l, b, t, h, h_pow, tan_phi, cos_phi, sin_phi, tan_psi, cos_psi, sin_alpha,
            tan_alpha,
        );
        aggregate(&rc, &rb, &rs, v, sqrt_gh, sqrt_gl)
    }
}

/// The crushing force is a finite rational whenever the keel cosine
/// and the crushing denominator are nonzero; no ice thickness, however
/// small, makes it degenerate.
pub proof fn lemma_crushing_well_formed(h: Q, tan_phi: Q, cos_phi: Q, sin_phi: Q, cos_psi: Q)
    requires
        q_wf(h),
        q_wf(tan_phi),
        q_wf(cos_phi),
        q_wf(sin_phi),
        q_wf(cos_psi),
        cos_psi.n != 0,
        q_crushing_denom(sin_phi, cos_psi).n != 0,
    ensures
        q_wf(q_crushing(h, tan_phi, cos_phi, sin_phi, cos_psi)),
{
    let hs = q_mul(q_half(), q_bending_strength());
    let h2 = q_mul(h, h);
    let d1 = q_div(cos_phi, cos_psi);
    let m1 = q_mul(q_friction(), d1);
    let numer = q_add(tan_phi, m1);
    let d2 = q_div(sin_phi, cos_psi);
    let m2 = q_mul(q_friction(), d2);
    let denom = q_sub(q_int(1), m2);
    lemma_q_mul_wf(q_half(), q_bending_strength());
    lemma_q_mul_wf(h, h);
    lemma_q_mul_wf(hs, h2);
    lemma_q_div_wf(cos_phi, cos_psi);
    lemma_q_mul_wf(q_friction(), d1);
    lemma_q_add_wf(tan_phi, m1);
    lemma_q_div_wf(sin_phi, cos_psi);
    lemma_q_mul_wf(q_friction(), d2);
    lemma_q_sub_wf(q_int(1), m2);
    lemma_q_div_wf(numer, denom);
    lemma_q_mul_wf(q_mul(hs, h2), q_div(numer, denom));
}

/// The bending force is a finite rational whenever the waterline sine
/// and the keel cosine are nonzero.
pub proof fn lemma_bending_well_formed(b: Q, h_pow: Q, tan_psi: Q, cos_phi: Q, sin_alpha: Q, cos_psi: Q)
    requires
        q_wf(b),
        q_wf(h_pow),
        q_wf(tan_psi),
        q_wf(cos_phi),
        q_wf(sin_alpha),
        q_wf(cos_psi),
        sin_alpha.n != 0,
        cos_psi.n != 0,
    ensures
        q_wf(q_bending(b, h_pow, tan_psi, cos_phi, sin_alpha, cos_psi)),
{
    let cs = q_mul(q_bending_coefficient(), q_bending_strength());
    let bh = q_mul(b, h_pow);
    let sc = q_mul(sin_alpha, cos_psi);
    assert(sc.n != 0) by (nonlinear_arith)
        requires
            sc.n == sin_alpha.n * cos_psi.n,
            sin_alpha.n != 0,
            cos_psi.n != 0,
    ;
    let d1 = q_div(cos_phi, sc);
    let m1 = q_mul(q_friction(), d1);
    let d2 = q_div(q_int(1), cos_psi);
    let a2 = q_add(q_int(1), d2);
    let m2 = q_mul(m1, a2);
    lemma_q_mul_wf(q_bending_coefficient(), q_bending_strength());
    lemma_q_mul_wf(b, h_pow);
    lemma_q_mul_wf(cs, bh);
    lemma_q_mul_wf(sin_alpha, cos_psi);
    lemma_q_div_wf(cos_phi, sc);
    lemma_q_mul_wf(q_friction(), d1);
    lemma_q_div_wf(q_int(1), cos_psi);
    lemma_q_add_wf(q_int(1), d2);
    lemma_q_mul_wf(m1, a2);
    lemma_q_add_wf(tan_psi, m2);
    lemma_q_mul_wf(q_mul(cs, bh), q_add(tan_psi, m2));
}

/// The submersion force is a finite rational whenever the trim sine
/// and tangent, the waterline tangent and the two inner denominators
/// are nonzero.
pub proof fn lemma_submersion_well_formed(
    l: Q,
    b: Q,
    t: Q,
    h: Q,
    tan_phi: Q,
    tan_alpha: Q,
    cos_phi: Q,
    cos_psi: Q,
    sin_phi: Q,
)
    requires
        q_wf(l),
        q_wf(b),
        q_wf(t),
        q_wf(h),
        q_wf(tan_phi),
        q_wf(tan_alpha),
        q_wf(cos_phi),
        q_wf(cos_psi),
        q_wf(sin_phi),
        tan_phi.n != 0,
        tan_alpha.n != 0,
        sin_phi.n != 0,
        q_submersion_depth_denom(b, t).n != 0,
        q_submersion_clearing_denom(t, tan_alpha, cos_phi, cos_psi, sin_phi).n != 0,
    ensures
        q_wf(q_submersion(l, b, t, h, tan_phi, tan_alpha, cos_phi, cos_psi, sin_phi)),
{
    let bt = q_add(b, t);
    let tbt = q_mul(t, bt);
    let t2 = q_mul(q_int(2), t);
    let b2t = q_add(b, t2);
    let term1 = q_div(tbt, b2t);
    let s2 = q_mul(sin_phi, sin_phi);
    assert(s2.n != 0) by (nonlinear_arith)
        requires
            s2.n == sin_phi.n * sin_phi.n,
            sin_phi.n != 0,
    ;
    let i1 = q_div(q_int(1), s2);
    let ta2 = q_mul(tan_alpha, tan_alpha);
    assert(ta2.n != 0) by (nonlinear_arith)
        requires
            ta2.n == tan_alpha.n * tan_alpha.n,
            tan_alpha.n != 0,
    ;
    let i2 = q_div(q_int(1), ta2);
    let inner = q_add(i1, i2);
    let cc = q_mul(cos_phi, cos_psi);
    let tcc = q_mul(t, cc);
    let m3 = q_mul(tcc, inner);
    let fta = q_mul(q_int(4), tan_alpha);
    let dd = q_add(fta, m3);
    let qq = q_div(b, dd);
    let sl = q_mul(q_seven_tenths(), l);
    let tt = q_div(t, tan_phi);
    let x1 = q_sub(sl, tt);
    let x2 = q_sub(x1, qq);
    let term2 = q_mul(q_friction(), x2);
    let brsum = q_add(term1, term2);
    let c1 = q_mul(q_density_difference(), q_gravity());
    let hb = q_mul(h, b);
    let c2 = q_mul(c1, hb);
    lemma_q_add_wf(b, t);
    lemma_q_mul_wf(t, bt);
    lemma_q_mul_wf(q_int(2), t);
    lemma_q_add_wf(b, t2);
    lemma_q_div_wf(tbt, b2t);
    lemma_q_mul_wf(sin_phi, sin_phi);
    lemma_q_div_wf(q_int(1), s2);
    lemma_q_mul_wf(tan_alpha, tan_alpha);
    lemma_q_div_wf(q_int(1), ta2);
    lemma_q_add_wf(i1, i2);
    lemma_q_mul_wf(cos_phi, cos_psi);
    lemma_q_mul_wf(t, cc);
    lemma_q_mul_wf(tcc, inner);
    lemma_q_mul_wf(q_int(4), tan_alpha);
    lemma_q_add_wf(fta, m3);
    lemma_q_div_wf(b, dd);
    lemma_q_mul_wf(q_seven_tenths(), l);
    lemma_q_div_wf(t, tan_phi);
    lemma_q_sub_wf(sl, tt);
    lemma_q_sub_wf(x1, qq);
    lemma_q_mul_wf(q_friction(), x2);
    lemma_q_add_wf(term1, term2);
    lemma_q_mul_wf(q_density_difference(), q_gravity());
    lemma_q_mul_wf(h, b);
    lemma_q_mul_wf(c1, hb);
    lemma_q_mul_wf(c2, brsum);
}

/// The aggregated total is a finite rational whenever both square
/// roots are nonzero.
pub proof fn lemma_aggregate_well_formed(rc: Q, rb: Q, rs: Q, v: Q, sqrt_gh: Q, sqrt_gl: Q)
    requires
        q_wf(rc),
        q_wf(rb),
        q_wf(rs),
        q_wf(v),
        q_wf(sqrt_gh),
        q_wf(sqrt_gl),
        sqrt_gh.n != 0,
        sqrt_gl.n != 0,
    ensures
        q_wf(q_aggregate(rc, rb, rs, v, sqrt_gh, sqrt_gl)),
{
    let m1 = q_mul(q_bow_speed_coefficient(), v);
    let d1 = q_div(m1, sqrt_gh);
    let f1 = q_add(q_int(1), d1);
    let m2 = q_mul(q_hull_speed_coefficient(), v);
    let d2 = q_div(m2, sqrt_gl);
    let f2 = q_add(q_int(1), d2);
    let cb = q_add(rc, rb);
    lemma_q_mul_wf(q_bow_speed_coefficient(), v);
    lemma_q_div_wf(m1, sqrt_gh);
    lemma_q_add_wf(q_int(1), d1);
    lemma_q_mul_wf(q_hull_speed_coefficient(), v);
    lemma_q_div_wf(m2, sqrt_gl);
    lemma_q_add_wf(q_int(1), d2);
    lemma_q_add_wf(rc, rb);
    lemma_q_mul_wf(cb, f1);
    lemma_q_mul_wf(rs, f2);
    lemma_q_add_wf(q_mul(cb, f1), q_mul(rs, f2));
}

/// Finiteness of the whole pipeline: for any nonzero ice thickness,
/// however small, the total resistance is a finite rational whenever
/// no input denominator is degenerate; at thickness exactly zero it is
/// zero by definition.
pub proof fn lemma_total_resistance_well_formed(
    l: Q,
    b: Q,
    t: Q,
    h: Q,
    h_pow: Q,
    tan_phi: Q,
    cos_phi: Q,
    sin_phi: Q,
    tan_psi: Q,
    cos_psi: Q,
    sin_alpha: Q,
    tan_alpha: Q,
    v: Q,
    sqrt_gh: Q,
    sqrt_gl: Q,
)
    requires
        q_wf(l),
        q_wf(b),
        q_wf(t),
        q_wf(h),
        q_wf(h_pow),
        q_wf(tan_phi),
        q_wf(cos_phi),
        q_wf(sin_phi),
        q_wf(tan_psi),
        q_wf(cos_psi),
        q_wf(sin_alpha),
        q_wf(tan_alpha),
        q_wf(v),
        q_wf(sqrt_gh),
        q_wf(sqrt_gl),
        cos_psi.n != 0,
        sin_alpha.n != 0,
        sin_phi.n != 0,
        tan_phi.n != 0,
        tan_alpha.n != 0,
        sqrt_gh.n != 0,
        sqrt_gl.n != 0,
        q_crushing_denom(sin_phi, cos_psi).n != 0,
        q_submersion_depth_denom(b, t).n != 0,
        q_submersion_clearing_denom(t, tan_alpha, cos_phi, cos_psi, sin_phi).n != 0,
    ensures
        q_wf(
            q_total_resistance(
                l, b, t, h, h_pow, tan_phi, cos_phi, sin_phi, tan_psi, cos_psi, sin_alpha,
                tan_alpha, v, sqrt_gh, sqrt_gl,
            ),
        ),
{
    if h.n != 0 {
        lemma_crushing_well_formed(h, tan_phi, cos_phi, sin_phi, cos_psi);
        lemma_bending_well_formed(b, h_pow, tan_psi, cos_phi, sin_alpha, cos_psi);
        lemma_submersion_well_formed(l, b, t, h, tan_phi, tan_alpha, cos_phi, cos_psi, sin_phi);
        lemma_aggregate_well_formed(
            q_crushing(h, tan_phi, cos_phi, sin_phi, cos_psi),
            q_bending(b, h_pow, tan_psi, cos_phi, sin_alpha, cos_psi),
            q_submersion(l, b, t, h, tan_phi, tan_alpha, cos_phi, cos_psi, sin_phi),
            v,
            sqrt_gh,
            sqrt_gl,
        );
    }
}

/// At zero ice thickness the crushing force is exactly zero: the term
/// carries the factor `h^2`.
pub proof fn lemma_crushing_vanishes_without_ice(h: Q, tan_phi: Q, cos_phi: Q, sin_phi: Q, cos_psi: Q)
    requires
        h.n == 0,
    ensures
        q_crushing(h, tan_phi, cos_phi, sin_phi, cos_psi).n == 0,
        q_eq(q_crushing(h, tan_phi, cos_phi, sin_phi, cos_psi), q_zero()),
{
    let hs = q_mul(q_half(), q_bending_strength());
    let frac = q_div(
        q_crushing_numer(tan_phi, cos_phi, cos_psi),
        q_crushing_denom(sin_phi, cos_psi),
    );
    lemma_mul_zero(h.n, h.n);
    lemma_mul_zero(hs.n, q_mul(h, h).n);
    lemma_mul_zero(q_mul(hs, q_mul(h, h)).n, frac.n);
    lemma_mul_zero(q_crushing(h, tan_phi, cos_phi, sin_phi, cos_psi).n, 1);
    lemma_mul_zero(q_zero().n, q_crushing(h, tan_phi, cos_phi, sin_phi, cos_psi).d);
}

/// At zero ice thickness the bending force is exactly zero: the term
/// carries the factor `h^1.5`, which enters as the input `h_pow`.
pub proof fn lemma_bending_vanishes_without_ice(b: Q, h_pow: Q, tan_psi: Q, cos_phi: Q, sin_alpha: Q, cos_psi: Q)
    requires
        h_pow.n == 0,
    ensures
        q_bending(b, h_pow, tan_psi, cos_phi, sin_alpha, cos_psi).n == 0,
        q_eq(q_bending(b, h_pow, tan_psi, cos_phi, sin_alpha, cos_psi), q_zero()),
{
    let cs = q_mul(q_bending_coefficient(), q_bending_strength());
    let bracket = q_bending_bracket(tan_psi, cos_phi, sin_alpha, cos_psi);
    lemma_mul_zero(b.n, h_pow.n);
    lemma_mul_zero(cs.n, q_mul(b, h_pow).n);
    lemma_mul_zero(q_mul(cs, q_mul(b, h_pow)).n, bracket.n);
    lemma_mul_zero(q_bending(b, h_pow, tan_psi, cos_phi, sin_alpha, cos_psi).n, 1);
    lemma_mul_zero(q_zero().n, q_bending(b, h_pow, tan_psi, cos_phi, sin_alpha, cos_psi).d);
}

/// At zero ice thickness the submersion force is exactly zero: the
/// term carries the factor `h`.
pub proof fn lemma_submersion_vanishes_without_ice(
    l: Q,
    b: Q,
    t: Q,
    h: Q,
    tan_phi: Q,
    tan_alpha: Q,
    cos_phi: Q,
    cos_psi: Q,
    sin_phi: Q,
)
    requires
        h.n == 0,
    ensures
        q_submersion(l, b, t, h, tan_phi, tan_alpha, cos_phi, cos_psi, sin_phi).n == 0,
        q_eq(q_submersion(l, b, t, h, tan_phi, tan_alpha, cos_phi, cos_psi, sin_phi), q_zero()),
{
    let c1 = q_mul(q_density_difference(), q_gravity());
    let bracket = q_add(
        q_div(q_mul(t, q_add(b, t)), q_submersion_depth_denom(b, t)),
        q_mul(
            q_friction(),
            q_sub(
                q_sub(q_mul(q_seven_tenths(), l), q_div(t, tan_phi)),
                q_div(b, q_submersion_clearing_denom(t, tan_alpha, cos_phi, cos_psi, sin_phi)),
            ),
        ),
    );
    let rs = q_submersion(l, b, t, h, tan_phi, tan_alpha, cos_phi, cos_psi, sin_phi);
    lemma_mul_zero(h.n, b.n);
    lemma_mul_zero(c1.n, q_mul(h, b).n);
    lemma_mul_zero(q_mul(c1, q_mul(h, b)).n, bracket.n);
    lemma_mul_zero(rs.n, 1);
    lemma_mul_zero(q_zero().n, rs.d);
}

/// Aggregating three zero components gives zero, whatever the speed:
/// the speed correction only multiplies the components.
pub proof fn lemma_aggregate_of_zero_components(rc: Q, rb: Q, rs: Q, v: Q, sqrt_gh: Q, sqrt_gl: Q)
    requires
        rc.n == 0,
        rb.n == 0,
        rs.n == 0,
    ensures
        q_aggregate(rc, rb, rs, v, sqrt_gh, sqrt_gl).n == 0,
        q_eq(q_aggregate(rc, rb, rs, v, sqrt_gh, sqrt_gl), q_zero()),
{
    let f1 = q_speed_factor(q_bow_speed_coefficient(), v, sqrt_gh);
    let f2 = q_speed_factor(q_hull_speed_coefficient(), v, sqrt_gl);
    let cb = q_add(rc, rb);
    let term1 = q_mul(cb, f1);
    let term2 = q_mul(rs, f2);
    lemma_mul_zero(rc.n, rb.d);
    lemma_mul_zero(rb.n, rc.d);
    lemma_mul_zero(cb.n, f1.n);
    lemma_mul_zero(rs.n, f2.n);
    lemma_mul_zero(term1.n, term2.d);
    lemma_mul_zero(term2.n, term1.d);
    lemma_mul_zero(q_aggregate(rc, rb, rs, v, sqrt_gh, sqrt_gl).n, 1);
    lemma_mul_zero(q_zero().n, q_aggregate(rc, rb, rs, v, sqrt_gh, sqrt_gl).d);
}

/// The caller-level zero-thickness rule: the total resistance is
/// exactly zero when the ice thickness is exactly zero, regardless of
/// every other parameter.
pub proof fn lemma_total_resistance_zero_thickness(
    l: Q,
    b: Q,
    t: Q,
    h: Q,
    h_pow: Q,
    tan_phi: Q,
    cos_phi: Q,
    sin_phi: Q,
    tan_psi: Q,
    cos_psi: Q,
    sin_alpha: Q,
    tan_alpha: Q,
    v: Q,
    sqrt_gh: Q,
    sqrt_gl: Q,
)
    requires
        h.n == 0,
    ensures
        q_total_resistance(
            l, b, t, h, h_pow, tan_phi, cos_phi, sin_phi, tan_psi, cos_psi, sin_alpha,
            tan_alpha, v, sqrt_gh, sqrt_gl,
        ) == q_zero(),
{
}

/// Scaling the ice thickness by `k` scales the crushing force by
/// `k^2`: the crushing term is quadratic in the thickness, so doubling
/// the thickness quadruples the force.
pub proof fn lemma_crushing_quadratic_in_thickness(k: int, h: Q, tan_phi: Q, cos_phi: Q, sin_phi: Q, cos_psi: Q)
    ensures
        q_eq(
            q_crushing(q_mul(q_int(k), h), tan_phi, cos_phi, sin_phi, cos_psi),
            q_mul(q_int(k * k), q_crushing(h, tan_phi, cos_phi, sin_phi, cos_psi)),
        ),
{
    let hk = q_mul(q_int(k), h);
    let hs = q_mul(q_half(), q_bending_strength());
    let f = q_div(
        q_crushing_numer(tan_phi, cos_phi, cos_psi),
        q_crushing_denom(sin_phi, cos_psi),
    );
    let lhs = q_crushing(hk, tan_phi, cos_phi, sin_phi, cos_psi);
    let rhs = q_mul(q_int(k * k), q_crushing(h, tan_phi, cos_phi, sin_phi, cos_psi));
    assert(lhs.n == rhs.n) by (nonlinear_arith)
        requires
            lhs.n == (hs.n * ((k * h.n) * (k * h.n))) * f.n,
            rhs.n == (k * k) * ((hs.n * (h.n * h.n)) * f.n),
    ;
    assert(lhs.d == rhs.d);
}

/// The bending force is linear in the `h^1.5` input: scaling `h_pow`
/// by `k` scales the force by `k`. Doubling the thickness scales
/// `h^1.5` by `2^1.5`, hence the force by the same factor.
pub proof fn lemma_bending_linear_in_thickness_power(
    k: int,
    b: Q,
    h_pow: Q,
    tan_psi: Q,
    cos_phi: Q,
    sin_alpha: Q,
    cos_psi: Q,
)
    ensures
        q_eq(
            q_bending(b, q_mul(q_int(k), h_pow), tan_psi, cos_phi, sin_alpha, cos_psi),
            q_mul(q_int(k), q_bending(b, h_pow, tan_psi, cos_phi, sin_alpha, cos_psi)),
        ),
{
    let hk = q_mul(q_int(k), h_pow);
    let cs = q_mul(q_bending_coefficient(), q_bending_strength());
    let bracket = q_bending_bracket(tan_psi, cos_phi, sin_alpha, cos_psi);
    let lhs = q_bending(b, hk, tan_psi, cos_phi, sin_alpha, cos_psi);
    let rhs = q_mul(q_int(k), q_bending(b, h_pow, tan_psi, cos_phi, sin_alpha, cos_psi));
    assert(lhs.n == rhs.n) by (nonlinear_arith)
        requires
            lhs.n == (cs.n * (b.n * (k * h_pow.n))) * bracket.n,
            rhs.n == k * ((cs.n * (b.n * h_pow.n)) * bracket.n),
    ;
    assert(lhs.d == rhs.d);
}

/// A speed-correction multiplier is monotone in the speed when its
/// coefficient is non-negative and the root is positive.
proof fn lemma_speed_factor_monotone(coeff: Q, v1: Q, v2: Q, root: Q)
    requires
        q_wf(coeff),
        q_wf(v1),
        q_wf(v2),
        q_wf(root),
        q_nonneg(coeff),
        root.n > 0,
        q_le(v1, v2),
    ensures
        q_le(
            q_speed_factor(coeff, v1, root),
            q_speed_factor(coeff, v2, root),
        ),
{
    let f1 = q_speed_factor(coeff, v1, root);
    let f2 = q_speed_factor(coeff, v2, root);
    let n1 = (coeff.n * v1.n) * root.d;
    let d1 = (coeff.d * v1.d) * root.n;
    let n2 = (coeff.n * v2.n) * root.d;
    let d2 = (coeff.d * v2.d) * root.n;
    assert(n1 * d2 <= n2 * d1) by (nonlinear_arith)
        requires
            n1 == (coeff.n * v1.n) * root.d,
            d1 == (coeff.d * v1.d) * root.n,
            n2 == (coeff.n * v2.n) * root.d,
            d2 == (coeff.d * v2.d) * root.n,
            coeff.n >= 0,
            coeff.d > 0,
            root.n > 0,
            root.d > 0,
            v1.n * v2.d <= v2.n * v1.d,
    ;
    assert(f1.n * f2.d <= f2.n * f1.d) by (nonlinear_arith)
        requires
            f1.n == 1 * d1 + n1 * 1,
            f1.d == 1 * d1,
            f2.n == 1 * d2 + n2 * 1,
            f2.d == 1 * d2,
            n1 * d2 <= n2 * d1,
    ;
}

/// A speed-correction multiplier is a finite rational when the root is
/// nonzero.
proof fn lemma_speed_factor_wf(coeff: Q, v: Q, root: Q)
    requires
        q_wf(coeff),
        q_wf(v),
        q_wf(root),
        root.n != 0,
    ensures
        q_wf(q_speed_factor(coeff, v, root)),
{
    lemma_q_mul_wf(coeff, v);
    lemma_q_div_wf(q_mul(coeff, v), root);
    lemma_q_add_wf(q_int(1), q_div(q_mul(coeff, v), root));
}

/// Monotonicity in speed: for non-negative components and positive
/// square roots, increasing the speed never decreases the aggregated
/// total resistance.
pub proof fn lemma_aggregate_monotone_in_speed(
    rc: Q,
    rb: Q,
    rs: Q,
    v1: Q,
    v2: Q,
    sqrt_gh: Q,
    sqrt_gl: Q,
)
    requires
        q_wf(rc),
        q_wf(rb),
        q_wf(rs),
        q_wf(v1),
        q_wf(v2),
        q_wf(sqrt_gh),
        q_wf(sqrt_gl),
        q_nonneg(rc),
        q_nonneg(rb),
        q_nonneg(rs),
        sqrt_gh.n > 0,
        sqrt_gl.n > 0,
        q_le(v1, v2),
    ensures
        q_le(
            q_aggregate(rc, rb, rs, v1, sqrt_gh, sqrt_gl),
            q_aggregate(rc, rb, rs, v2, sqrt_gh, sqrt_gl),
        ),
{
    let f11 = q_speed_factor(q_bow_speed_coefficient(), v1, sqrt_gh);
    let f12 = q_speed_factor(q_bow_speed_coefficient(), v2, sqrt_gh);
    let f21 = q_speed_factor(q_hull_speed_coefficient(), v1, sqrt_gl);
    let f22 = q_speed_factor(q_hull_speed_coefficient(), v2, sqrt_gl);
    let cb = q_add(rc, rb);
    lemma_speed_factor_monotone(q_bow_speed_coefficient(), v1, v2, sqrt_gh);
    lemma_speed_factor_monotone(q_hull_speed_coefficient(), v1, v2, sqrt_gl);
    lemma_speed_factor_wf(q_bow_speed_coefficient(), v1, sqrt_gh);
    lemma_speed_factor_wf(q_bow_speed_coefficient(), v2, sqrt_gh);
    lemma_speed_factor_wf(q_hull_speed_coefficient(), v1, sqrt_gl);
    lemma_speed_factor_wf(q_hull_speed_coefficient(), v2, sqrt_gl);
    lemma_q_add_wf(rc, rb);
    lemma_q_add_nonneg(rc, rb);
    lemma_q_le_mul_left(cb, f11, f12);
    lemma_q_le_mul_left(rs, f21, f22);
    lemma_q_mul_wf(cb, f11);
    lemma_q_mul_wf(cb, f12);
    lemma_q_mul_wf(rs, f21);
    lemma_q_mul_wf(rs, f22);
    lemma_q_le_add(q_mul(cb, f11), q_mul(rs, f21), q_mul(cb, f12), q_mul(rs, f22));
}

/// Determinism: the model is a pure function of its inputs, so two
/// evaluations on the same inputs denote the same rational.
pub proof fn lemma_total_resistance_deterministic(
    l: Q,
    b: Q,
    t: Q,
    h: Q,
    h_pow: Q,
    tan_phi: Q,
    cos_phi: Q,
    sin_phi: Q,
    tan_psi: Q,
    cos_psi: Q,
    sin_alpha: Q,
    tan_alpha: Q,
    v: Q,
    sqrt_gh: Q,
    sqrt_gl: Q,
    r1: Q,
    r2: Q,
)
    requires
        r1 == q_total_resistance(
            l, b, t, h, h_pow, tan_phi, cos_phi, sin_phi, tan_psi, cos_psi, sin_alpha,
            tan_alpha, v, sqrt_gh, sqrt_gl,
        ),
        r2 == q_total_resistance(
            l, b, t, h, h_pow, tan_phi, cos_phi, sin_phi, tan_psi, cos_psi, sin_alpha,
            tan_alpha, v, sqrt_gh, sqrt_gl,
        ),
    ensures
        r1 == r2,
{
}

} // verus!
