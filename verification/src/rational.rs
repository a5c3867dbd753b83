//! Exact rational arithmetic.
//!
//! Camera state (center, scale) and all projection math work on `Rat`, a
//! rational number with `i128` numerator and positive `i128` denominator.
//! Results are kept in lowest terms by gcd reduction and are bounded by
//! [`BOUND`]; an operation whose reduced result would leave the bounded range
//! returns `None`, and the contracts state exactly when that happens.
//!
//! Contracts speak about [`Ratio`], the mathematical (unbounded) value of a
//! `Rat`, through the view `@`. Two `Ratio`s denote the same rational number
//! when [`ratio_eq`] holds (cross multiplication), and the spec-level
//! operations [`ratio_add`], [`ratio_mul`], ... build the exact results.

use vstd::prelude::*;

verus! {

use vstd::arithmetic::div_mod::{
    lemma_fundamental_div_mod,
    lemma_fundamental_div_mod_converse,
    lemma_small_mod,
    lemma_mod_self_0,
    lemma_mod_multiples_vanish,
};
use vstd::arithmetic::mul::lemma_mul_is_associative;

/// Largest magnitude allowed for a stored numerator, and largest stored
/// denominator: 2^62. Products of two bounded values then stay well inside
/// `i128`.
pub const BOUND: i128 = 0x4000_0000_0000_0000;

/// The mathematical value of a rational: an unbounded numerator/denominator
/// pair. A `Ratio` is meaningful when its denominator is positive.
pub ghost struct Ratio {
    pub n: int,
    pub d: int,
}

/// `r` is a valid rational value: positive denominator.
pub open spec fn ratio_valid(r: Ratio) -> bool {
    r.d > 0
}

/// The two pairs denote the same rational number (cross multiplication).
pub open spec fn ratio_eq(a: Ratio, b: Ratio) -> bool {
    a.n * b.d == b.n * a.d
}

/// The rational `i / 1`.
pub open spec fn ratio_int(i: int) -> Ratio {
    Ratio { n: i, d: 1 }
}

/// Exact sum.
pub open spec fn ratio_add(a: Ratio, b: Ratio) -> Ratio {
    Ratio { n: a.n * b.d + b.n * a.d, d: a.d * b.d }
}

/// Exact difference `a - b`.
pub open spec fn ratio_sub(a: Ratio, b: Ratio) -> Ratio {
    Ratio { n: a.n * b.d - b.n * a.d, d: a.d * b.d }
}

/// Exact negation.
pub open spec fn ratio_neg(a: Ratio) -> Ratio {
    Ratio { n: -a.n, d: a.d }
}

/// Exact product.
pub open spec fn ratio_mul(a: Ratio, b: Ratio) -> Ratio {
    Ratio { n: a.n * b.n, d: a.d * b.d }
}

/// Exact quotient `a / b`, with the sign moved into the numerator so the
/// denominator stays positive. Meaningful only when `b.n != 0`.
pub open spec fn ratio_div(a: Ratio, b: Ratio) -> Ratio {
    if b.n >= 0 {
        Ratio { n: a.n * b.d, d: a.d * b.n }
    } else {
        Ratio { n: -(a.n * b.d), d: a.d * -b.n }
    }
}

/// `a <= b` as rational numbers (both denominators positive).
pub open spec fn ratio_le(a: Ratio, b: Ratio) -> bool {
    a.n * b.d <= b.n * a.d
}

/// `a < b` as rational numbers (both denominators positive).
pub open spec fn ratio_lt(a: Ratio, b: Ratio) -> bool {
    a.n * b.d < b.n * a.d
}

/// Absolute value of an integer, as a natural number.
pub open spec fn abs_int(n: int) -> nat {
    if n >= 0 {
        n as nat
    } else {
        (-n) as nat
    }
}

/// Euclid's greatest common divisor.
pub open spec fn gcd(a: nat, b: nat) -> nat
    decreases b,
{
    if b == 0 {
        a
    } else {
        gcd(b, a % b)
    }
}

/// `r` in lowest terms: both components divided by their gcd.
pub open spec fn ratio_reduce(r: Ratio) -> Ratio
    recommends
        ratio_valid(r),
{
    let g = gcd(abs_int(r.n), r.d as nat) as int;
    Ratio { n: r.n / g, d: r.d / g }
}

/// The pair fits in the stored range.
pub open spec fn ratio_bounded(r: Ratio) -> bool {
    &&& -(BOUND as int) <= r.n <= BOUND as int
    &&& 0 < r.d <= BOUND as int
}

/// The result of normalising an exact value into a stored one: the reduced
/// pair when it fits, `None` when it does not.
pub open spec fn ratio_norm(r: Ratio) -> Option<Ratio>
    recommends
        ratio_valid(r),
{
    let q = ratio_reduce(r);
    if ratio_bounded(q) {
        Some(q)
    } else {
        None
    }
}

/// What a fallible operation promises, given the exact mathematical result
/// it set out to compute: on success the stored value is exactly the reduced
/// form of `exact` (hence denotes the same rational number); failure happens
/// precisely when that reduced form is out of range.
pub open spec fn norm_result(r: Option<Rat>, exact: Ratio) -> bool {
    match r {
        Some(c) => c.wf() && Some(c@) == ratio_norm(exact) && ratio_eq(c@, exact),
        None => ratio_norm(exact) is None,
    }
}

/// An exact rational number in lowest terms, bounded by [`BOUND`].
#[derive(Clone, Copy, Debug)]
pub struct Rat {
    num: i128,
    den: i128,
}

impl View for Rat {
    type V = Ratio;

    closed spec fn view(&self) -> Ratio {
        Ratio { n: self.num as int, d: self.den as int }
    }
}

impl Rat {
    /// The stored pair is valid and bounded.
    pub open spec fn wf(self) -> bool {
        ratio_bounded(self@)
    }

    /// The rational `n / 1`.
    pub fn from_u32(n: u32) -> (r: Rat)
        ensures
            r.wf(),
            r@ == ratio_int(n as int),
    {
        Rat { num: n as i128, den: 1 }
    }

    /// The rational `n / 1`.
    pub fn from_i32(n: i32) -> (r: Rat)
        ensures
            r.wf(),
            r@ == ratio_int(n as int),
    {
        Rat { num: n as i128, den: 1 }
    }

    /// The rational `num / den` as given (not reduced; any pair of small
    /// components is in range).
    pub fn from_frac(num: i32, den: i32) -> (r: Rat)
        requires
            den > 0,
        ensures
            r.wf(),
            r@ == (Ratio { n: num as int, d: den as int }),
    {
        Rat { num: num as i128, den: den as i128 }
    }

    /// The rational `num / den`, reduced; `None` when `den` is zero or the
    /// reduced pair is out of range. A negative `den` moves the sign to the
    /// numerator.
    pub fn new(num: i64, den: i64) -> (r: Option<Rat>)
        ensures
            den == 0 ==> r is None,
            den > 0 ==> norm_result(r, (Ratio { n: num as int, d: den as int })),
            den < 0 ==> norm_result(r, (Ratio { n: -(num as int), d: -(den as int) })),
    {
        if den == 0 {
            None
        } else if den > 0 {
            Self::make(num as i128, den as i128)
        } else {
            Self::make(-(num as i128), -(den as i128))
        }
    }

    /// `self <= other` as rational numbers.
    pub fn le(&self, other: &Rat) -> (r: bool)
        requires
            self.wf(),
            other.wf(),
        ensures
            r == ratio_le(self@, other@),
    {
        proof {
            lemma_prod_bound(self.num as int, other.den as int);
            lemma_prod_bound(other.num as int, self.den as int);
        }
        self.num * other.den <= other.num * self.den
    }

    /// `self < other` as rational numbers.
    pub fn lt(&self, other: &Rat) -> (r: bool)
        requires
            self.wf(),
            other.wf(),
        ensures
            r == ratio_lt(self@, other@),
    {
        proof {
            lemma_prod_bound(self.num as int, other.den as int);
            lemma_prod_bound(other.num as int, self.den as int);
        }
        self.num * other.den < other.num * self.den
    }

    /// `self` denotes the same rational number as `other`.
    pub fn eq_value(&self, other: &Rat) -> (r: bool)
        requires
            self.wf(),
            other.wf(),
        ensures
            r == ratio_eq(self@, other@),
    {
        proof {
            lemma_prod_bound(self.num as int, other.den as int);
            lemma_prod_bound(other.num as int, self.den as int);
        }
        self.num * other.den == other.num * self.den
    }

    /// The stored numerator, for callers that need to leave exact
    /// arithmetic (display, conversion to floating point).
    pub fn numer(&self) -> (r: i128)
        ensures
            r as int == self@.n,
    {
        self.num
    }

    /// The stored denominator (always positive).
    pub fn denom(&self) -> (r: i128)
        ensures
            r as int == self@.d,
    {
        self.den
    }

    /// Strictly positive as a rational number.
    pub fn is_positive(&self) -> (r: bool)
        requires
            self.wf(),
        ensures
            r == ratio_lt(ratio_int(0), self@),
    {
        self.num > 0
    }

    /// Exact negation; never fails, the bounded range is symmetric.
    pub fn neg(&self) -> (r: Rat)
        requires
            self.wf(),
        ensures
            r.wf(),
            r@ == ratio_neg(self@),
    {
        Rat { num: -self.num, den: self.den }
    }

    /// The larger of the two values (`other` when equal), as the original
    /// pair, not a reduced copy.
    pub fn max(&self, other: &Rat) -> (r: Rat)
        requires
            self.wf(),
            other.wf(),
        ensures
            r.wf(),
            r == if ratio_le(self@, other@) {
                *other
            } else {
                *self
            },
    {
        if self.le(other) {
            *other
        } else {
            *self
        }
    }

    /// Reduced sum.
    pub fn add(&self, other: &Rat) -> (r: Option<Rat>)
        requires
            self.wf(),
            other.wf(),
        ensures
            norm_result(r, ratio_add(self@, other@)),
    {
        proof {
            lemma_prod_bound(self.num as int, other.den as int);
            lemma_prod_bound(other.num as int, self.den as int);
            lemma_prod_bound(self.den as int, other.den as int);
            lemma_pos_prod(self.den as int, other.den as int);
        }
        let n = self.num * other.den + other.num * self.den;
        let d = self.den * other.den;
        Self::make(n, d)
    }

    /// Reduced difference `self - other`.
    pub fn sub(&self, other: &Rat) -> (r: Option<Rat>)
        requires
            self.wf(),
            other.wf(),
        ensures
            norm_result(r, ratio_sub(self@, other@)),
    {
        proof {
            lemma_prod_bound(self.num as int, other.den as int);
            lemma_prod_bound(other.num as int, self.den as int);
            lemma_prod_bound(self.den as int, other.den as int);
            lemma_pos_prod(self.den as int, other.den as int);
        }
        let n = self.num * other.den - other.num * self.den;
        let d = self.den * other.den;
        Self::make(n, d)
    }

    /// Reduced product.
    pub fn mul(&self, other: &Rat) -> (r: Option<Rat>)
        requires
            self.wf(),
            other.wf(),
        ensures
            norm_result(r, ratio_mul(self@, other@)),
    {
        proof {
            lemma_prod_bound(self.num as int, other.num as int);
            lemma_prod_bound(self.den as int, other.den as int);
            lemma_pos_prod(self.den as int, other.den as int);
        }
        let n = self.num * other.num;
        let d = self.den * other.den;
        Self::make(n, d)
    }

    /// Reduced quotient `self / other`; `other` must be nonzero.
    pub fn div(&self, other: &Rat) -> (r: Option<Rat>)
        requires
            self.wf(),
            other.wf(),
            other@.n != 0,
        ensures
            norm_result(r, ratio_div(self@, other@)),
    {
        proof {
            lemma_prod_bound(self.num as int, other.den as int);
            lemma_prod_bound(self.den as int, other.num as int);
        }
        if other.num > 0 {
            proof {
                lemma_pos_prod(self.den as int, other.num as int);
            }
            Self::make(self.num * other.den, self.den * other.num)
        } else {
            proof {
                lemma_prod_bound(self.den as int, -(other.num as int));
                lemma_pos_prod(self.den as int, -(other.num as int));
            }
            Self::make(-(self.num * other.den), self.den * -other.num)
        }
    }

    /// Normalise `num / den` into a stored rational: divide both components
    /// by their gcd and fail exactly when the reduced pair is out of range.
    fn make(num: i128, den: i128) -> (r: Option<Rat>)
        requires
            i128::MIN < num,
            0 < den,
        ensures
            norm_result(r, (Ratio { n: num as int, d: den as int })),
    {
        let m: u128 = if num >= 0 {
            num as u128
        } else {
            (-num) as u128
        };
        proof {
            assert(m as nat == abs_int(num as int));
        }
        let g: u128 = gcd_exec(m, den as u128);
        proof {
            lemma_gcd_divides(m as nat, den as nat);
            lemma_divisor_le(den as int, g as int);
            if m > 0 {
                lemma_divisor_le(m as int, g as int);
            } else {
                vstd::arithmetic::div_mod::lemma_div_of0(g as int);
            }
        }
        let m2: u128 = m / g;
        let d2: i128 = (den as u128 / g) as i128;
        let n2: i128 = if num >= 0 {
            m2 as i128
        } else {
            -(m2 as i128)
        };
        proof {
            lemma_exact_div_facts(num as int, den as int, g as int);
            assert(n2 as int == ratio_reduce((Ratio { n: num as int, d: den as int })).n);
            assert(d2 as int == ratio_reduce((Ratio { n: num as int, d: den as int })).d);
            lemma_reduce_eq((Ratio { n: num as int, d: den as int }));
        }
        if -BOUND <= n2 && n2 <= BOUND && d2 <= BOUND {
            Some(Rat { num: n2, den: d2 })
        } else {
            None
        }
    }
}

/// Exact integer power `b^e`.
pub open spec fn ratio_pow(b: Ratio, e: nat) -> Ratio
    decreases e,
{
    if e == 0 {
        ratio_int(1)
    } else {
        ratio_mul(ratio_pow(b, (e - 1) as nat), b)
    }
}

/// `b^e` as computed with a normalisation after every multiplication:
/// `None` as soon as one intermediate reduced value leaves the range.
pub open spec fn ratio_pow_norm(b: Ratio, e: nat) -> Option<Ratio>
    decreases e,
{
    if e == 0 {
        Some(ratio_int(1))
    } else {
        match ratio_pow_norm(b, (e - 1) as nat) {
            Some(p) => ratio_norm(ratio_mul(p, b)),
            None => None,
        }
    }
}

impl Rat {
    /// Reduced power `self^e`, normalising after every multiplication.
    pub fn pow_norm(&self, e: u32) -> (r: Option<Rat>)
        requires
            self.wf(),
        ensures
            (match r {
                Some(c) => c.wf() && ratio_pow_norm(self@, e as nat) == Some(c@),
                None => ratio_pow_norm(self@, e as nat) is None,
            }),
    {
        let mut acc = Rat::from_i32(1);
        let mut i: u32 = 0;
        while i < e
            invariant
                i <= e,
                self.wf(),
                acc.wf(),
                ratio_pow_norm(self@, i as nat) == Some(acc@),
            decreases e - i,
        {
            match acc.mul(self) {
                Some(c) => {
                    acc = c;
                    i = i + 1;
                },
                None => {
                    proof {
                        lemma_pow_norm_none_mono(self@, (i + 1) as nat, e as nat);
                    }
                    return None;
                },
            }
        }
        Some(acc)
    }
}

/// Once an intermediate power fails to normalise, all later ones do.
proof fn lemma_pow_norm_none_mono(b: Ratio, i: nat, j: nat)
    requires
        i <= j,
        ratio_pow_norm(b, i) is None,
    ensures
        ratio_pow_norm(b, j) is None,
    decreases j,
{
    if j > i {
        lemma_pow_norm_none_mono(b, i, (j - 1) as nat);
    }
}

/// Exact powers of a valid rational are valid.
pub proof fn lemma_pow_valid(b: Ratio, e: nat)
    requires
        ratio_valid(b),
    ensures
        ratio_valid(ratio_pow(b, e)),
    decreases e,
{
    if e > 0 {
        lemma_pow_valid(b, (e - 1) as nat);
        lemma_pos_prod(ratio_pow(b, (e - 1) as nat).d, b.d);
    }
}

/// A successfully normalised power denotes the exact power.
pub proof fn lemma_pow_norm_eq(b: Ratio, e: nat)
    requires
        ratio_valid(b),
    ensures
        (match ratio_pow_norm(b, e) {
            Some(p) => ratio_valid(p) && ratio_eq(p, ratio_pow(b, e)),
            None => true,
        }),
    decreases e,
{
    if e > 0 {
        lemma_pow_norm_eq(b, (e - 1) as nat);
        lemma_pow_valid(b, (e - 1) as nat);
        lemma_pow_valid(b, e);
        match ratio_pow_norm(b, (e - 1) as nat) {
            Some(p) => {
                lemma_pos_prod(p.d, b.d);
                match ratio_norm(ratio_mul(p, b)) {
                    Some(q) => {
                        lemma_reduce_eq(ratio_mul(p, b));
                        lemma_mul_congruence(p, ratio_pow(b, (e - 1) as nat), b, b);
                        lemma_pos_prod(ratio_pow(b, (e - 1) as nat).d, b.d);
                        lemma_ratio_eq_trans(q, ratio_mul(p, b), ratio_pow(b, e));
                    },
                    None => {},
                }
            },
            None => {},
        }
    }
}

/// Value equality is symmetric and transitive (on valid rationals).
pub proof fn lemma_ratio_eq_trans(a: Ratio, b: Ratio, c: Ratio)
    by (nonlinear_arith)
    requires
        ratio_valid(a),
        ratio_valid(b),
        ratio_valid(c),
        ratio_eq(a, b),
        ratio_eq(b, c),
    ensures
        ratio_eq(a, c),
{
}

/// Sums of equal values are equal.
pub proof fn lemma_add_congruence(a1: Ratio, a2: Ratio, b1: Ratio, b2: Ratio)
    requires
        ratio_valid(a1),
        ratio_valid(a2),
        ratio_valid(b1),
        ratio_valid(b2),
        ratio_eq(a1, a2),
        ratio_eq(b1, b2),
    ensures
        ratio_eq(ratio_add(a1, b1), ratio_add(a2, b2)),
        ratio_valid(ratio_add(a1, b1)),
{
    lemma_pos_prod(a1.d, b1.d);
    assert((a1.n * b1.d) * (a2.d * b2.d) == (a2.n * b2.d) * (a1.d * b1.d)) by (nonlinear_arith)
        requires
            a1.n * a2.d == a2.n * a1.d,
    ;
    assert((b1.n * a1.d) * (a2.d * b2.d) == (b2.n * a2.d) * (a1.d * b1.d)) by (nonlinear_arith)
        requires
            b1.n * b2.d == b2.n * b1.d,
    ;
    assert((a1.n * b1.d + b1.n * a1.d) * (a2.d * b2.d) == (a2.n * b2.d + b2.n * a2.d) * (a1.d
        * b1.d)) by (nonlinear_arith)
        requires
            (a1.n * b1.d) * (a2.d * b2.d) == (a2.n * b2.d) * (a1.d * b1.d),
            (b1.n * a1.d) * (a2.d * b2.d) == (b2.n * a2.d) * (a1.d * b1.d),
    ;
}

/// Differences of equal values are equal.
pub proof fn lemma_sub_congruence(a1: Ratio, a2: Ratio, b1: Ratio, b2: Ratio)
    requires
        ratio_valid(a1),
        ratio_valid(a2),
        ratio_valid(b1),
        ratio_valid(b2),
        ratio_eq(a1, a2),
        ratio_eq(b1, b2),
    ensures
        ratio_eq(ratio_sub(a1, b1), ratio_sub(a2, b2)),
        ratio_valid(ratio_sub(a1, b1)),
{
    lemma_pos_prod(a1.d, b1.d);
    assert((a1.n * b1.d) * (a2.d * b2.d) == (a2.n * b2.d) * (a1.d * b1.d)) by (nonlinear_arith)
        requires
            a1.n * a2.d == a2.n * a1.d,
    ;
    assert((b1.n * a1.d) * (a2.d * b2.d) == (b2.n * a2.d) * (a1.d * b1.d)) by (nonlinear_arith)
        requires
            b1.n * b2.d == b2.n * b1.d,
    ;
    assert((a1.n * b1.d - b1.n * a1.d) * (a2.d * b2.d) == (a2.n * b2.d - b2.n * a2.d) * (a1.d
        * b1.d)) by (nonlinear_arith)
        requires
            (a1.n * b1.d) * (a2.d * b2.d) == (a2.n * b2.d) * (a1.d * b1.d),
            (b1.n * a1.d) * (a2.d * b2.d) == (b2.n * a2.d) * (a1.d * b1.d),
    ;
}

/// Products of equal values are equal.
pub proof fn lemma_mul_congruence(a1: Ratio, a2: Ratio, b1: Ratio, b2: Ratio)
    requires
        ratio_valid(a1),
        ratio_valid(a2),
        ratio_valid(b1),
        ratio_valid(b2),
        ratio_eq(a1, a2),
        ratio_eq(b1, b2),
    ensures
        ratio_eq(ratio_mul(a1, b1), ratio_mul(a2, b2)),
        ratio_valid(ratio_mul(a1, b1)),
{
    assert((a1.n * b1.n) * (a2.d * b2.d) == (a2.n * b2.n) * (a1.d * b1.d)) by (nonlinear_arith)
        requires
            a1.n * a2.d == a2.n * a1.d,
            b1.n * b2.d == b2.n * b1.d,
    ;
    lemma_pos_prod(a1.d, b1.d);
}

/// Quotients of equal values are equal (nonzero divisors).
pub proof fn lemma_div_congruence(a1: Ratio, a2: Ratio, b1: Ratio, b2: Ratio)
    by (nonlinear_arith)
    requires
        ratio_valid(a1),
        ratio_valid(a2),
        ratio_valid(b1),
        ratio_valid(b2),
        ratio_eq(a1, a2),
        ratio_eq(b1, b2),
        b1.n != 0,
        b2.n != 0,
    ensures
        ratio_eq(ratio_div(a1, b1), ratio_div(a2, b2)),
        ratio_valid(ratio_div(a1, b1)),
{
}

/// Order does not depend on the chosen representatives.
pub proof fn lemma_le_congruence(a1: Ratio, a2: Ratio, b1: Ratio, b2: Ratio)
    by (nonlinear_arith)
    requires
        ratio_valid(a1),
        ratio_valid(a2),
        ratio_valid(b1),
        ratio_valid(b2),
        ratio_eq(a1, a2),
        ratio_eq(b1, b2),
    ensures
        ratio_le(a1, b1) == ratio_le(a2, b2),
        ratio_lt(a1, b1) == ratio_lt(a2, b2),
{
}

/// A product of positive rationals is positive and valid.
pub proof fn lemma_mul_pos_valid(a: Ratio, b: Ratio)
    by (nonlinear_arith)
    requires
        ratio_valid(a),
        ratio_valid(b),
        ratio_lt(ratio_int(0), a),
        ratio_lt(ratio_int(0), b),
    ensures
        ratio_valid(ratio_mul(a, b)),
        ratio_lt(ratio_int(0), ratio_mul(a, b)),
        ratio_mul(a, b).n > 0,
{
}

/// A quotient of positive rationals is positive and valid.
pub proof fn lemma_div_pos_valid(a: Ratio, b: Ratio)
    by (nonlinear_arith)
    requires
        ratio_valid(a),
        ratio_valid(b),
        ratio_lt(ratio_int(0), a),
        ratio_lt(ratio_int(0), b),
    ensures
        ratio_valid(ratio_div(a, b)),
        ratio_lt(ratio_int(0), ratio_div(a, b)),
        b.n > 0,
{
}

/// Normalising a positive value yields a positive value.
pub proof fn lemma_norm_keeps_positive(exact: Ratio, stored: Ratio)
    requires
        ratio_valid(exact),
        ratio_lt(ratio_int(0), exact),
        ratio_norm(exact) == Some(stored),
    ensures
        ratio_valid(stored),
        ratio_lt(ratio_int(0), stored),
        stored.n > 0,
        ratio_eq(stored, exact),
    {
        lemma_reduce_eq(exact);
        lemma_le_congruence(ratio_int(0), ratio_int(0), exact, stored);
    }

/// Exact powers of a positive rational are positive.
pub proof fn lemma_pow_pos(b: Ratio, e: nat)
    requires
        ratio_valid(b),
        ratio_lt(ratio_int(0), b),
    ensures
        ratio_valid(ratio_pow(b, e)),
        ratio_lt(ratio_int(0), ratio_pow(b, e)),
    decreases e,
{
    if e > 0 {
        lemma_pow_pos(b, (e - 1) as nat);
        lemma_mul_pos_valid(ratio_pow(b, (e - 1) as nat), b);
    }
}

/// Euclid's algorithm, mirroring the spec definition.
fn gcd_exec(a: u128, b: u128) -> (g: u128)
    ensures
        g as nat == gcd(a as nat, b as nat),
    decreases b,
{
    if b == 0 {
        a
    } else {
        gcd_exec(b, a % b)
    }
}

/// Product of two values bounded by [`BOUND`] stays well inside `i128`.
proof fn lemma_prod_bound(x: int, y: int)
    by (nonlinear_arith)
    requires
        -(BOUND as int) <= x <= BOUND as int,
        -(BOUND as int) <= y <= BOUND as int,
    ensures
        -(BOUND as int) * (BOUND as int) <= x * y <= (BOUND as int) * (BOUND as int),
        i128::MIN < x * y < i128::MAX,
{
}

/// A product of positives is positive.
pub proof fn lemma_pos_prod(x: int, y: int)
    by (nonlinear_arith)
    requires
        0 < x,
        0 < y,
    ensures
        0 < x * y,
{
}

/// The gcd divides both arguments and is positive unless both are zero.
proof fn lemma_gcd_divides(a: nat, b: nat)
    ensures
        a > 0 || b > 0 ==> gcd(a, b) > 0,
        gcd(a, b) > 0 ==> a as int % (gcd(a, b) as int) == 0,
        gcd(a, b) > 0 ==> b as int % (gcd(a, b) as int) == 0,
    decreases b,
{
    if b == 0 {
        if a > 0 {
            lemma_mod_self_0(a as int);
            lemma_small_mod(0, a);
        }
    } else {
        lemma_gcd_divides(b, a % b);
        let g = gcd(b, a % b) as int;
        assert(g == gcd(a, b));
        assert(g > 0);
        // b % g == 0 and (a % b) % g == 0; conclude a % g == 0 from
        // a == b * (a / b) + a % b.
        lemma_fundamental_div_mod(a as int, b as int);
        lemma_fundamental_div_mod(b as int, g);
        assert(b as int == g * (b as int / g));
        let q = a as int / b as int;
        let rem = a as int % b as int;
        assert(a as int == b as int * q + rem);
        assert(b as int * q == (g * (b as int / g)) * q);
        lemma_mul_is_associative(g, b as int / g, q);
        assert(a as int == g * ((b as int / g) * q) + rem);
        lemma_mod_multiples_vanish((b as int / g) * q, rem, g);
        assert(a as int % g == rem % g);
    }
}

/// A positive divisor of a positive number is no larger than it.
proof fn lemma_divisor_le(x: int, g: int)
    requires
        0 < x,
        0 < g,
        x % g == 0,
    ensures
        g <= x,
        1 <= x / g,
        x / g <= x,
{
    lemma_fundamental_div_mod(x, g);
    let q = x / g;
    assert(g <= x && 1 <= q && q <= x) by (nonlinear_arith)
        requires
            x == g * q + 0,
            0 < x,
            0 < g,
    ;
}

/// Dividing an exactly divisible pair by a common positive divisor, done on
/// magnitudes in the executable code, matches the spec-level `ratio_reduce`
/// components (Euclidean division is exact here).
proof fn lemma_exact_div_facts(num: int, den: int, g: int)
    requires
        0 < den,
        0 < g,
        abs_int(num) as int % g == 0,
        den % g == 0,
    ensures
        num % g == 0,
        num >= 0 ==> abs_int(num) as int / g == num / g,
        num < 0 ==> -(abs_int(num) as int / g) == num / g,
{
    if num < 0 {
        let m = abs_int(num) as int;
        lemma_fundamental_div_mod(m, g);
        assert(m == g * (m / g));
        // num == -m == g * (-(m / g)), with remainder 0, pins num / g.
        assert(num == g * (-(m / g))) by (nonlinear_arith)
            requires
                m == g * (m / g),
                num == -m,
        ;
        lemma_fundamental_div_mod_converse(num, g, -(m / g), 0);
    }
}

/// Reducing keeps the denominator positive and denotes the same rational.
pub proof fn lemma_reduce_eq(r: Ratio)
    requires
        ratio_valid(r),
    ensures
        ratio_valid(ratio_reduce(r)),
        ratio_eq(ratio_reduce(r), r),
        abs_int(ratio_reduce(r).n) <= abs_int(r.n),
        ratio_reduce(r).d <= r.d,
{
    lemma_gcd_divides(abs_int(r.n), r.d as nat);
    let g = gcd(abs_int(r.n), r.d as nat) as int;
    assert(g > 0);
    assert(abs_int(r.n) as int % g == 0);
    assert(r.n % g == 0) by {
        if r.n < 0 {
            let m = abs_int(r.n) as int;
            lemma_fundamental_div_mod(m, g);
            assert(m == g * (m / g));
            assert(r.n == g * (-(m / g))) by (nonlinear_arith)
                requires
                    m == g * (m / g),
                    r.n == -m,
            ;
            lemma_fundamental_div_mod_converse(r.n, g, -(m / g), 0);
        }
    }
    lemma_fundamental_div_mod(r.n, g);
    lemma_fundamental_div_mod(r.d, g);
    let n2 = r.n / g;
    let d2 = r.d / g;
    assert(r.n == g * n2);
    assert(r.d == g * d2);
    assert(d2 > 0 && d2 <= r.d && ratio_eq((Ratio { n: n2, d: d2 }), r)) by (nonlinear_arith)
        requires
            r.n == g * n2,
            r.d == g * d2,
            g > 0,
            r.d > 0,
    ;
    assert(abs_int(n2) <= abs_int(r.n)) by (nonlinear_arith)
        requires
            r.n == g * n2,
            g > 0,
    ;
}

} // verus!
