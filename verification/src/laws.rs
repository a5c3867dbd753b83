//! Library-wide laws: properties that tie several operations together,
//! stated over the same spec functions the operations' own contracts use.

use vstd::prelude::*;

verus! {

use crate::controller::{zoom_factor_exact, world_to_screen_x_exact, world_to_screen_y_exact};
use crate::data::{ViewData, WorldPoint, WorldSize, WorldVector};
use crate::matrix::range_scale_norm;
use crate::rational::{
    Ratio,
    ratio_add,
    ratio_div,
    ratio_eq,
    ratio_int,
    ratio_lt,
    ratio_mul,
    ratio_pow,
    ratio_sub,
    ratio_valid,
    lemma_add_congruence,
    lemma_div_congruence,
    lemma_le_congruence,
    lemma_pos_prod,
    lemma_pow_pos,
    lemma_ratio_eq_trans,
    lemma_sub_congruence,
};

/// A difference of valid rationals is valid.
proof fn lemma_valid_sub(a: Ratio, b: Ratio)
    requires
        ratio_valid(a),
        ratio_valid(b),
    ensures
        ratio_valid(ratio_sub(a, b)),
        ratio_valid(ratio_add(a, b)),
{
    lemma_pos_prod(a.d, b.d);
}

/// A quotient by a positive rational is valid.
proof fn lemma_valid_div(a: Ratio, b: Ratio)
    by (nonlinear_arith)
    requires
        ratio_valid(a),
        ratio_valid(b),
        b.n > 0,
    ensures
        ratio_valid(ratio_div(a, b)),
{
}

/// Subtracting a difference adds back: `a - (b - c) = (a - b) + c`.
#[verifier::rlimit(100)]
proof fn lemma_sub_of_sub(a: Ratio, b: Ratio, c: Ratio)
    requires
        ratio_valid(a),
        ratio_valid(b),
        ratio_valid(c),
    ensures
        ratio_eq(ratio_sub(a, ratio_sub(b, c)), ratio_add(ratio_sub(a, b), c)),
        ratio_valid(ratio_sub(a, ratio_sub(b, c))),
        ratio_valid(ratio_add(ratio_sub(a, b), c)),
{
    let l = ratio_sub(a, ratio_sub(b, c));
    let r = ratio_add(ratio_sub(a, b), c);
    lemma_pos_prod(b.d, c.d);
    lemma_pos_prod(a.d, b.d * c.d);
    lemma_pos_prod(a.d, b.d);
    lemma_pos_prod(a.d * b.d, c.d);
    assert(l.n == r.n) by (nonlinear_arith)
        requires
            l.n == a.n * (b.d * c.d) - (b.n * c.d - c.n * b.d) * a.d,
            r.n == (a.n * b.d - b.n * a.d) * c.d + c.n * (a.d * b.d),
    ;
    assert(l.d == r.d) by (nonlinear_arith)
        requires
            l.d == a.d * (b.d * c.d),
            r.d == (a.d * b.d) * c.d,
    ;
}

/// Subtracting a sum subtracts in turn: `a - (b + c) = (a - b) - c`.
#[verifier::rlimit(100)]
proof fn lemma_sub_of_add(a: Ratio, b: Ratio, c: Ratio)
    requires
        ratio_valid(a),
        ratio_valid(b),
        ratio_valid(c),
    ensures
        ratio_eq(ratio_sub(a, ratio_add(b, c)), ratio_sub(ratio_sub(a, b), c)),
        ratio_valid(ratio_sub(a, ratio_add(b, c))),
        ratio_valid(ratio_sub(ratio_sub(a, b), c)),
{
    let l = ratio_sub(a, ratio_add(b, c));
    let r = ratio_sub(ratio_sub(a, b), c);
    lemma_pos_prod(b.d, c.d);
    lemma_pos_prod(a.d, b.d * c.d);
    lemma_pos_prod(a.d, b.d);
    lemma_pos_prod(a.d * b.d, c.d);
    assert(l.n == r.n) by (nonlinear_arith)
        requires
            l.n == a.n * (b.d * c.d) - (b.n * c.d + c.n * b.d) * a.d,
            r.n == (a.n * b.d - b.n * a.d) * c.d - c.n * (a.d * b.d),
    ;
    assert(l.d == r.d) by (nonlinear_arith)
        requires
            l.d == a.d * (b.d * c.d),
            r.d == (a.d * b.d) * c.d,
    ;
}

/// Division distributes over a sum: `(a + b) / c = a / c + b / c`.
#[verifier::rlimit(100)]
proof fn lemma_div_of_add(a: Ratio, b: Ratio, c: Ratio)
    requires
        ratio_valid(a),
        ratio_valid(b),
        ratio_valid(c),
        c.n > 0,
    ensures
        ratio_eq(ratio_div(ratio_add(a, b), c), ratio_add(ratio_div(a, c), ratio_div(b, c))),
        ratio_valid(ratio_div(ratio_add(a, b), c)),
        ratio_valid(ratio_add(ratio_div(a, c), ratio_div(b, c))),
{
    let l = ratio_div(ratio_add(a, b), c);
    let r = ratio_add(ratio_div(a, c), ratio_div(b, c));
    lemma_valid_sub(a, b);
    lemma_valid_div(ratio_add(a, b), c);
    lemma_valid_div(a, c);
    lemma_valid_div(b, c);
    lemma_valid_sub(ratio_div(a, c), ratio_div(b, c));
    let k = c.d * c.n;
    assert((a.n * c.d) * (b.d * c.n) == k * (a.n * b.d)) by (nonlinear_arith)
        requires
            k == c.d * c.n,
    ;
    assert((b.n * c.d) * (a.d * c.n) == k * (b.n * a.d)) by (nonlinear_arith)
        requires
            k == c.d * c.n,
    ;
    assert(k * (a.n * b.d) + k * (b.n * a.d) == k * (a.n * b.d + b.n * a.d)) by (nonlinear_arith);
    assert(r.n == (c.d * c.n) * (a.n * b.d + b.n * a.d));
    assert(r.d == (c.n * c.n) * (a.d * b.d)) by (nonlinear_arith)
        requires
            r.d == (a.d * c.n) * (b.d * c.n),
    ;
    assert(l.n * r.d == r.n * l.d) by (nonlinear_arith)
        requires
            l.n == (a.n * b.d + b.n * a.d) * c.d,
            l.d == (a.d * b.d) * c.n,
            r.n == (c.d * c.n) * (a.n * b.d + b.n * a.d),
            r.d == (c.n * c.n) * (a.d * b.d),
    ;
}

/// The outer summand order does not matter: `(a + b) + c = (a + c) + b`.
#[verifier::rlimit(100)]
proof fn lemma_add_swap(a: Ratio, b: Ratio, c: Ratio)
    requires
        ratio_valid(a),
        ratio_valid(b),
        ratio_valid(c),
    ensures
        ratio_eq(ratio_add(ratio_add(a, b), c), ratio_add(ratio_add(a, c), b)),
        ratio_valid(ratio_add(ratio_add(a, b), c)),
        ratio_valid(ratio_add(ratio_add(a, c), b)),
{
    let l = ratio_add(ratio_add(a, b), c);
    let r = ratio_add(ratio_add(a, c), b);
    lemma_pos_prod(a.d, b.d);
    lemma_pos_prod(a.d * b.d, c.d);
    lemma_pos_prod(a.d, c.d);
    lemma_pos_prod(a.d * c.d, b.d);
    assert(l.n == r.n) by (nonlinear_arith)
        requires
            l.n == (a.n * b.d + b.n * a.d) * c.d + c.n * (a.d * b.d),
            r.n == (a.n * c.d + c.n * a.d) * b.d + b.n * (a.d * c.d),
    ;
    assert(l.d == r.d) by (nonlinear_arith)
        requires
            l.d == (a.d * b.d) * c.d,
            r.d == (a.d * c.d) * b.d,
    ;
}

/// Round-trip pan. For any world point and any pan vector applied by a
/// middle-drag — the view center moves from `center` to `center - d`, with
/// scale and viewport untouched — projecting the point to screen pixels
/// after the pan gives the same coordinates as projecting it before the
/// pan and translating the result by the screen-space equivalent of `d`,
/// which is `(d.x / pixel_size, -d.y / pixel_size)`: the point under the
/// cursor stays put.
pub proof fn lemma_pan_round_trip(v0: ViewData, v1: ViewData, d: WorldVector, p: WorldPoint)
    requires
        v0.wf(),
        d.wf(),
        p.wf(),
        v1.center.x@.d > 0,
        v1.center.y@.d > 0,
        ratio_eq(v1.center.x@, ratio_sub(v0.center.x@, d.x@)),
        ratio_eq(v1.center.y@, ratio_sub(v0.center.y@, d.y@)),
        v1.size == v0.size,
        v1.pixel_size == v0.pixel_size,
    ensures
        ratio_eq(
            world_to_screen_x_exact(v1, p.x@),
            ratio_add(world_to_screen_x_exact(v0, p.x@), ratio_div(d.x@, v0.pixel_size@)),
        ),
        ratio_eq(
            world_to_screen_y_exact(v1, p.y@),
            ratio_sub(world_to_screen_y_exact(v0, p.y@), ratio_div(d.y@, v0.pixel_size@)),
        ),
{
    let s = v0.pixel_size@;
    let half_w = ratio_div(v0.size.width@, ratio_int(2));
    let half_h = ratio_div(v0.size.height@, ratio_int(2));
    assert(s.n > 0);
    lemma_valid_div(v0.size.width@, ratio_int(2));
    lemma_valid_div(v0.size.height@, ratio_int(2));
    // x axis
    {
        let px = p.x@;
        let cx = v0.center.x@;
        let dx = d.x@;
        let c1 = v1.center.x@;
        let a = ratio_add(ratio_div(ratio_sub(px, c1), s), half_w);
        let b = ratio_add(ratio_div(ratio_sub(px, ratio_sub(cx, dx)), s), half_w);
        let c = ratio_add(ratio_div(ratio_add(ratio_sub(px, cx), dx), s), half_w);
        let e = ratio_add(
            ratio_add(ratio_div(ratio_sub(px, cx), s), ratio_div(dx, s)),
            half_w,
        );
        let f = ratio_add(
            ratio_add(ratio_div(ratio_sub(px, cx), s), half_w),
            ratio_div(dx, s),
        );
        lemma_valid_sub(px, c1);
        lemma_valid_sub(cx, dx);
        lemma_valid_sub(px, ratio_sub(cx, dx));
        lemma_valid_div(ratio_sub(px, c1), s);
        lemma_valid_div(ratio_sub(px, ratio_sub(cx, dx)), s);
        lemma_valid_sub(ratio_div(ratio_sub(px, c1), s), half_w);
        lemma_valid_sub(ratio_div(ratio_sub(px, ratio_sub(cx, dx)), s), half_w);
        // a == b
        lemma_sub_congruence(px, px, c1, ratio_sub(cx, dx));
        lemma_div_congruence(ratio_sub(px, c1), ratio_sub(px, ratio_sub(cx, dx)), s, s);
        lemma_add_congruence(
            ratio_div(ratio_sub(px, c1), s),
            ratio_div(ratio_sub(px, ratio_sub(cx, dx)), s),
            half_w,
            half_w,
        );
        // b == c
        lemma_sub_of_sub(px, cx, dx);
        lemma_div_congruence(
            ratio_sub(px, ratio_sub(cx, dx)),
            ratio_add(ratio_sub(px, cx), dx),
            s,
            s,
        );
        lemma_valid_sub(px, cx);
        lemma_valid_sub(ratio_sub(px, cx), dx);
        lemma_valid_div(ratio_add(ratio_sub(px, cx), dx), s);
        lemma_add_congruence(
            ratio_div(ratio_sub(px, ratio_sub(cx, dx)), s),
            ratio_div(ratio_add(ratio_sub(px, cx), dx), s),
            half_w,
            half_w,
        );
        // c == e
        lemma_div_of_add(ratio_sub(px, cx), dx, s);
        lemma_valid_div(ratio_sub(px, cx), s);
        lemma_valid_div(dx, s);
        lemma_valid_sub(ratio_div(ratio_sub(px, cx), s), ratio_div(dx, s));
        lemma_add_congruence(
            ratio_div(ratio_add(ratio_sub(px, cx), dx), s),
            ratio_add(ratio_div(ratio_sub(px, cx), s), ratio_div(dx, s)),
            half_w,
            half_w,
        );
        // e == f
        lemma_add_swap(ratio_div(ratio_sub(px, cx), s), ratio_div(dx, s), half_w);
        // chain
        lemma_valid_sub(ratio_add(ratio_div(ratio_sub(px, cx), s), ratio_div(dx, s)), half_w);
        lemma_valid_sub(ratio_div(ratio_sub(px, cx), s), half_w);
        lemma_valid_sub(ratio_add(ratio_div(ratio_sub(px, cx), s), half_w), ratio_div(dx, s));
        lemma_valid_sub(ratio_div(ratio_add(ratio_sub(px, cx), dx), s), half_w);
        lemma_ratio_eq_trans(a, b, c);
        lemma_ratio_eq_trans(a, c, e);
        lemma_ratio_eq_trans(a, e, f);
    }
    // y axis
    {
        let py = p.y@;
        let cy = v0.center.y@;
        let dy = d.y@;
        let c1 = v1.center.y@;
        let q0 = ratio_div(ratio_sub(py, cy), s);
        let dq = ratio_div(dy, s);
        let a = ratio_sub(half_h, ratio_div(ratio_sub(py, c1), s));
        let b = ratio_sub(half_h, ratio_div(ratio_sub(py, ratio_sub(cy, dy)), s));
        let c = ratio_sub(half_h, ratio_div(ratio_add(ratio_sub(py, cy), dy), s));
        let e = ratio_sub(half_h, ratio_add(q0, dq));
        let f = ratio_sub(ratio_sub(half_h, q0), dq);
        lemma_valid_sub(py, c1);
        lemma_valid_sub(cy, dy);
        lemma_valid_sub(py, ratio_sub(cy, dy));
        lemma_valid_sub(py, cy);
        lemma_valid_sub(ratio_sub(py, cy), dy);
        lemma_valid_div(ratio_sub(py, c1), s);
        lemma_valid_div(ratio_sub(py, ratio_sub(cy, dy)), s);
        lemma_valid_div(ratio_add(ratio_sub(py, cy), dy), s);
        lemma_valid_div(ratio_sub(py, cy), s);
        lemma_valid_div(dy, s);
        // a == b
        lemma_sub_congruence(py, py, c1, ratio_sub(cy, dy));
        lemma_div_congruence(ratio_sub(py, c1), ratio_sub(py, ratio_sub(cy, dy)), s, s);
        lemma_sub_congruence(
            half_h,
            half_h,
            ratio_div(ratio_sub(py, c1), s),
            ratio_div(ratio_sub(py, ratio_sub(cy, dy)), s),
        );
        // b == c
        lemma_sub_of_sub(py, cy, dy);
        lemma_div_congruence(
            ratio_sub(py, ratio_sub(cy, dy)),
            ratio_add(ratio_sub(py, cy), dy),
            s,
            s,
        );
        lemma_sub_congruence(
            half_h,
            half_h,
            ratio_div(ratio_sub(py, ratio_sub(cy, dy)), s),
            ratio_div(ratio_add(ratio_sub(py, cy), dy), s),
        );
        // c == e
        lemma_div_of_add(ratio_sub(py, cy), dy, s);
        lemma_valid_sub(q0, dq);
        lemma_sub_congruence(
            half_h,
            half_h,
            ratio_div(ratio_add(ratio_sub(py, cy), dy), s),
            ratio_add(q0, dq),
        );
        // e == f
        lemma_sub_of_add(half_h, q0, dq);
        // chain
        lemma_valid_sub(half_h, ratio_div(ratio_sub(py, c1), s));
        lemma_valid_sub(half_h, ratio_div(ratio_sub(py, ratio_sub(cy, dy)), s));
        lemma_valid_sub(half_h, ratio_div(ratio_add(ratio_sub(py, cy), dy), s));
        lemma_valid_sub(half_h, ratio_add(q0, dq));
        lemma_valid_sub(half_h, q0);
        lemma_valid_sub(ratio_sub(half_h, q0), dq);
        lemma_ratio_eq_trans(a, b, c);
        lemma_ratio_eq_trans(a, c, e);
        lemma_ratio_eq_trans(a, e, f);
    }
}

/// One more "zoom in" click multiplies the exact zoom factor by the zoom
/// constant, whatever the sign of the click count, and factors are always
/// positive.
proof fn lemma_zoom_factor_step(v: int)
    ensures
        ratio_valid(zoom_factor_exact(v)),
        ratio_lt(ratio_int(0), zoom_factor_exact(v)),
        ratio_eq(
            zoom_factor_exact(v + 1),
            ratio_mul(zoom_factor_exact(v), (Ratio { n: 4, d: 5 })),
        ),
{
    lemma_pow_pos(crate::controller::zoom_step(v), crate::rational::abs_int(v));
    lemma_pow_pos(crate::controller::zoom_step(v + 1), crate::rational::abs_int(v + 1));
    if v >= 0 {
        assert(zoom_factor_exact(v + 1) == ratio_mul(zoom_factor_exact(v), (Ratio { n: 4, d: 5 })));
        let x = zoom_factor_exact(v + 1);
        assert(ratio_eq(x, x));
    } else if v == -1 {
        let one = ratio_pow((Ratio { n: 5, d: 4 }), 0);
        assert(zoom_factor_exact(0) == ratio_int(1));
        assert(zoom_factor_exact(-1) == ratio_mul(ratio_int(1), (Ratio { n: 5, d: 4 })));
        assert(ratio_eq(
            ratio_int(1),
            ratio_mul(ratio_mul(ratio_int(1), (Ratio { n: 5, d: 4 })), (Ratio { n: 4, d: 5 })),
        )) by (nonlinear_arith);
    } else {
        let n = crate::rational::abs_int(v + 1);
        let p = ratio_pow((Ratio { n: 5, d: 4 }), n);
        assert(zoom_factor_exact(v + 1) == p);
        assert(crate::rational::abs_int(v) == n + 1);
        assert(zoom_factor_exact(v) == ratio_mul(p, (Ratio { n: 5, d: 4 })));
        lemma_pow_pos((Ratio { n: 5, d: 4 }), n);
        assert(ratio_eq(p, ratio_mul(ratio_mul(p, (Ratio { n: 5, d: 4 })), (Ratio { n: 4, d: 5 }))))
            by (nonlinear_arith)
            requires
                p.d > 0,
        ;
    }
}

/// Multiplying both sides of a strict inequality by a positive rational
/// keeps it strict.
proof fn lemma_mul_lt_mono(s: Ratio, a: Ratio, b: Ratio)
    by (nonlinear_arith)
    requires
        ratio_valid(s),
        ratio_valid(a),
        ratio_valid(b),
        ratio_lt(ratio_int(0), s),
        ratio_lt(a, b),
    ensures
        ratio_lt(ratio_mul(s, a), ratio_mul(s, b)),
{
}

/// Strict order on valid rationals is transitive.
proof fn lemma_lt_trans(a: Ratio, b: Ratio, c: Ratio)
    by (nonlinear_arith)
    requires
        ratio_valid(a),
        ratio_valid(b),
        ratio_valid(c),
        ratio_lt(a, b),
        ratio_lt(b, c),
    ensures
        ratio_lt(a, c),
{
}

/// Zoom monotonicity. Starting from the same positive scale, more "zoom
/// in" scroll clicks leave a strictly smaller scale (less world per
/// pixel): for click counts `v1 < v2` the exact scale after `v2` clicks is
/// strictly below the exact scale after `v1` clicks.
pub proof fn lemma_zoom_monotonic(s: Ratio, v1: int, v2: int)
    requires
        ratio_valid(s),
        ratio_lt(ratio_int(0), s),
        v1 < v2,
    ensures
        ratio_lt(
            ratio_mul(s, zoom_factor_exact(v2)),
            ratio_mul(s, zoom_factor_exact(v1)),
        ),
    decreases v2 - v1,
{
    lemma_zoom_factor_step(v2 - 1);
    let f1 = zoom_factor_exact(v2 - 1);
    let f2 = zoom_factor_exact(v2);
    lemma_pow_pos(crate::controller::zoom_step(v2), crate::rational::abs_int(v2));
    // f2 == f1 * 4/5 < f1, so s * f2 < s * f1
    assert(ratio_lt(ratio_mul(f1, (Ratio { n: 4, d: 5 })), f1)) by (nonlinear_arith)
        requires
            ratio_valid(f1),
            ratio_lt(ratio_int(0), f1),
    ;
    lemma_pos_prod(f1.d, 5);
    lemma_le_congruence(f2, ratio_mul(f1, (Ratio { n: 4, d: 5 })), f1, f1);
    lemma_mul_lt_mono(s, f2, f1);
    lemma_mul_pos_all(s, f1);
    lemma_mul_pos_all(s, f2);
    if v1 < v2 - 1 {
        lemma_zoom_monotonic(s, v1, v2 - 1);
        lemma_pow_pos(crate::controller::zoom_step(v1), crate::rational::abs_int(v1));
        lemma_mul_pos_all(s, zoom_factor_exact(v1));
        lemma_lt_trans(
            ratio_mul(s, f2),
            ratio_mul(s, f1),
            ratio_mul(s, zoom_factor_exact(v1)),
        );
    }
}

/// A product of positive valid rationals is positive and valid.
proof fn lemma_mul_pos_all(a: Ratio, b: Ratio)
    by (nonlinear_arith)
    requires
        ratio_valid(a),
        ratio_valid(b),
        ratio_lt(ratio_int(0), a),
        ratio_lt(ratio_int(0), b),
    ensures
        ratio_valid(ratio_mul(a, b)),
        ratio_lt(ratio_int(0), ratio_mul(a, b)),
{
}

/// Range-fit idempotence. The fitted scale depends only on the reference
/// extent and the viewport size, so invoking the range-fitting projection
/// twice in a row with the same extent and no intervening viewport change
/// derives the same scale both times — including the same out-of-range
/// verdict — despite the first invocation's documented scale mutation.
pub proof fn lemma_range_fit_idempotent(v0: ViewData, v1: ViewData, e: WorldSize)
    requires
        v1.size == v0.size,
    ensures
        range_scale_norm(v1, e) == range_scale_norm(v0, e),
{
}

} // verus!
