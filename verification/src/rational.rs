//! Exact rational arithmetic.
//!
//! `Q` is the mathematical rational (numerator over denominator, both
//! unbounded integers) used in specifications; `Rat` is its executable
//! counterpart over `i128`. Every executable operation is exact: its
//! contract states that the result's view equals the corresponding
//! spec-level operation, and its preconditions are only what the
//! machine word forces (the exact products must fit in `i128`).

use vstd::prelude::*;

verus! {

/// A rational number at the specification level. The denominator is
/// kept positive by every operation below, so `n / d` is always the
/// value denoted.
pub ghost struct Q {
    pub n: int,
    pub d: int,
}

/// Well-formed: the denominator is positive, so the value is a finite
/// rational number.
pub open spec fn q_wf(a: Q) -> bool {
    a.d > 0
}

/// Equality of the denoted rational values (cross multiplication).
pub open spec fn q_eq(a: Q, b: Q) -> bool {
    a.n * b.d == b.n * a.d
}

/// `a <= b` for the denoted values; meaningful when both are
/// well-formed (positive denominators).
pub open spec fn q_le(a: Q, b: Q) -> bool {
    a.n * b.d <= b.n * a.d
}

/// The denoted value is non-negative (for a well-formed rational).
pub open spec fn q_nonneg(a: Q) -> bool {
    a.n >= 0
}

pub open spec fn q_add(a: Q, b: Q) -> Q {
    Q { n: a.n * b.d + b.n * a.d, d: a.d * b.d }
}

pub open spec fn q_sub(a: Q, b: Q) -> Q {
    Q { n: a.n * b.d - b.n * a.d, d: a.d * b.d }
}

pub open spec fn q_mul(a: Q, b: Q) -> Q {
    Q { n: a.n * b.n, d: a.d * b.d }
}

/// Division; the divisor's sign moves into the numerator so that the
/// denominator stays positive whenever `b.n != 0` and both inputs are
/// well-formed.
pub open spec fn q_div(a: Q, b: Q) -> Q {
    if b.n >= 0 {
        Q { n: a.n * b.d, d: a.d * b.n }
    } else {
        Q { n: -(a.n * b.d), d: -(a.d * b.n) }
    }
}

pub open spec fn q_int(n: int) -> Q {
    Q { n: n, d: 1 }
}

pub open spec fn q_zero() -> Q {
    q_int(0)
}

/// `x` lies in the symmetric `i128` range. The symmetric range (one
/// more than the true minimum) keeps negation safe.
pub open spec fn in_mag(x: int) -> bool {
    -i128::MAX <= x <= i128::MAX
}

/// The rational can be held exactly in a `Rat`.
pub open spec fn q_fits(a: Q) -> bool {
    &&& in_mag(a.n)
    &&& 0 < a.d <= i128::MAX
}

/// Every intermediate product of `q_mul(a, b)` fits in `i128`.
pub open spec fn fits_mul(a: Q, b: Q) -> bool {
    q_fits(q_mul(a, b))
}

/// Every intermediate product of `q_add(a, b)` fits in `i128`.
pub open spec fn fits_add(a: Q, b: Q) -> bool {
    &&& in_mag(a.n * b.d)
    &&& in_mag(b.n * a.d)
    &&& q_fits(q_add(a, b))
}

/// Every intermediate product of `q_sub(a, b)` fits in `i128`.
pub open spec fn fits_sub(a: Q, b: Q) -> bool {
    &&& in_mag(a.n * b.d)
    &&& in_mag(b.n * a.d)
    &&& q_fits(q_sub(a, b))
}

/// Every intermediate product of `q_div(a, b)` fits in `i128`.
pub open spec fn fits_div(a: Q, b: Q) -> bool {
    &&& in_mag(a.n * b.d)
    &&& in_mag(a.d * b.n)
    &&& q_fits(q_div(a, b))
}

/// Executable rational number; the view is the denoted `Q`.
pub struct Rat {
    pub num: i128,
    pub den: i128,
}

impl View for Rat {
    type V = Q;

    open spec fn view(&self) -> Q {
        Q { n: self.num as int, d: self.den as int }
    }
}

impl Rat {
    /// Build a rational from a numerator and a positive denominator.
    pub fn new(num: i128, den: i128) -> (r: Rat)
        requires
            den > 0,
        ensures
            r@ == (Q { n: num as int, d: den as int }),
            q_wf(r@),
    {
        Rat { num, den }
    }

    /// The rational equal to an integer.
    pub fn from_int(num: i128) -> (r: Rat)
        ensures
            r@ == q_int(num as int),
            q_wf(r@),
    {
        Rat { num, den: 1 }
    }
}

proof fn lemma_pos_mul_pos(x: int, y: int)
    by (nonlinear_arith)
    requires
        x > 0,
        y > 0,
    ensures
        x * y > 0,
{
}

proof fn lemma_pos_mul_neg(x: int, y: int)
    by (nonlinear_arith)
    requires
        x > 0,
        y < 0,
    ensures
        x * y < 0,
{
}

/// A product with a zero factor is zero.
pub proof fn lemma_mul_zero(x: int, y: int)
    by (nonlinear_arith)
    requires
        x == 0 || y == 0,
    ensures
        x * y == 0,
{
}

/// The sum of well-formed rationals is well-formed.
pub proof fn lemma_q_add_wf(a: Q, b: Q)
    requires
        q_wf(a),
        q_wf(b),
    ensures
        q_wf(q_add(a, b)),
{
    lemma_pos_mul_pos(a.d, b.d);
}

/// The difference of well-formed rationals is well-formed.
pub proof fn lemma_q_sub_wf(a: Q, b: Q)
    requires
        q_wf(a),
        q_wf(b),
    ensures
        q_wf(q_sub(a, b)),
{
    lemma_pos_mul_pos(a.d, b.d);
}

/// The product of well-formed rationals is well-formed.
pub proof fn lemma_q_mul_wf(a: Q, b: Q)
    requires
        q_wf(a),
        q_wf(b),
    ensures
        q_wf(q_mul(a, b)),
{
    lemma_pos_mul_pos(a.d, b.d);
}

/// The quotient of well-formed rationals is well-formed whenever the
/// divisor is nonzero.
pub proof fn lemma_q_div_wf(a: Q, b: Q)
    requires
        q_wf(a),
        q_wf(b),
        b.n != 0,
    ensures
        q_wf(q_div(a, b)),
{
    if b.n >= 0 {
        lemma_pos_mul_pos(a.d, b.n);
    } else {
        lemma_pos_mul_neg(a.d, b.n);
    }
}

/// The sum of non-negative well-formed rationals is non-negative.
pub proof fn lemma_q_add_nonneg(a: Q, b: Q)
    by (nonlinear_arith)
    requires
        q_wf(a),
        q_wf(b),
        q_nonneg(a),
        q_nonneg(b),
    ensures
        q_nonneg(q_add(a, b)),
{
}

/// Multiplying both sides of an inequality by the same non-negative
/// rational keeps the inequality.
pub proof fn lemma_q_le_mul_left(a: Q, x: Q, y: Q)
    by (nonlinear_arith)
    requires
        q_wf(a),
        q_wf(x),
        q_wf(y),
        q_nonneg(a),
        q_le(x, y),
    ensures
        q_le(q_mul(a, x), q_mul(a, y)),
{
}

/// Adding inequalities side by side keeps the inequality.
pub proof fn lemma_q_le_add(x1: Q, x2: Q, y1: Q, y2: Q)
    by (nonlinear_arith)
    requires
        q_wf(x1),
        q_wf(x2),
        q_wf(y1),
        q_wf(y2),
        q_le(x1, y1),
        q_le(x2, y2),
    ensures
        q_le(q_add(x1, x2), q_add(y1, y2)),
{
}

/// Exact rational addition.
pub fn rat_add(a: &Rat, b: &Rat) -> (r: Rat)
    requires
        q_wf(a@),
        q_wf(b@),
        fits_add(a@, b@),
    ensures
        r@ == q_add(a@, b@),
        q_wf(r@),
{
    proof {
        lemma_pos_mul_pos(a@.d, b@.d);
    }
    Rat { num: a.num * b.den + b.num * a.den, den: a.den * b.den }
}

/// Exact rational subtraction.
pub fn rat_sub(a: &Rat, b: &Rat) -> (r: Rat)
    requires
        q_wf(a@),
        q_wf(b@),
        fits_sub(a@, b@),
    ensures
        r@ == q_sub(a@, b@),
        q_wf(r@),
{
    proof {
        lemma_pos_mul_pos(a@.d, b@.d);
    }
    Rat { num: a.num * b.den - b.num * a.den, den: a.den * b.den }
}

/// Exact rational multiplication.
pub fn rat_mul(a: &Rat, b: &Rat) -> (r: Rat)
    requires
        q_wf(a@),
        q_wf(b@),
        fits_mul(a@, b@),
    ensures
        r@ == q_mul(a@, b@),
        q_wf(r@),
{
    proof {
        lemma_pos_mul_pos(a@.d, b@.d);
    }
    Rat { num: a.num * b.num, den: a.den * b.den }
}

/// Exact rational division by a rational with a nonzero numerator.
pub fn rat_div(a: &Rat, b: &Rat) -> (r: Rat)
    requires
        q_wf(a@),
        q_wf(b@),
        b@.n != 0,
        fits_div(a@, b@),
    ensures
        r@ == q_div(a@, b@),
        q_wf(r@),
{
    if b.num >= 0 {
        proof {
            lemma_pos_mul_pos(a@.d, b@.n);
        }
        Rat { num: a.num * b.den, den: a.den * b.num }
    } else {
        proof {
            lemma_pos_mul_neg(a@.d, b@.n);
        }
        Rat { num: -(a.num * b.den), den: -(a.den * b.num) }
    }
}

} // verus!
