//! The coordinate projection engine.
//!
//! [`ProjMatrix`] is the world-to-viewport transform derived from a
//! [`ViewData`]: an affine transform with only a diagonal scale and a
//! translation populated. The scale factor along an axis is
//! `2 / viewport_dimension / pixel_size` and the translation is
//! `-center * scale_factor`, applied per axis.
//!
//! [`ProjMatrix::look_to`] projects with the current scale;
//! [`ProjMatrix::look_to_range`] first re-derives the scale so that a given
//! world-space extent exactly fits the current viewport (the resize policy),
//! mutating the view descriptor's `pixel_size` — its one, documented, side
//! effect — and then projects.

use vstd::prelude::*;

verus! {

use crate::data::{Point2, ViewData, ViewportPoint, WorldPoint, WorldSize};
use crate::rational::{
    Rat,
    Ratio,
    ratio_add,
    ratio_div,
    ratio_eq,
    ratio_int,
    ratio_le,
    ratio_lt,
    ratio_mul,
    ratio_neg,
    ratio_norm,
    ratio_valid,
    lemma_add_congruence,
    lemma_div_congruence,
    lemma_le_congruence,
    lemma_mul_congruence,
    lemma_mul_pos_valid,
    lemma_div_pos_valid,
    lemma_norm_keeps_positive,
    lemma_pos_prod,
    lemma_ratio_eq_trans,
    lemma_reduce_eq,
};

/// The exact values of the four populated entries of a projection matrix.
pub ghost struct ProjRatio {
    pub sx: Ratio,
    pub sy: Ratio,
    pub tx: Ratio,
    pub ty: Ratio,
}

/// Exact diagonal scale factor for one axis: `2 / dim / pix`.
pub open spec fn axis_factor_exact(dim: Ratio, pix: Ratio) -> Ratio {
    ratio_div(ratio_int(2), ratio_mul(dim, pix))
}

/// Exact translation entry for one axis: `-c` times the axis scale factor.
pub open spec fn axis_trans_exact(c: Ratio, f: Ratio) -> Ratio {
    ratio_mul(ratio_neg(c), f)
}

/// `m` holds exactly the projection the view descriptor `v` calls for.
pub open spec fn matrix_matches(m: ProjRatio, v: ViewData) -> bool {
    &&& ratio_valid(m.sx) && ratio_valid(m.sy) && ratio_valid(m.tx) && ratio_valid(m.ty)
    &&& ratio_eq(m.sx, axis_factor_exact(v.size.width@, v.pixel_size@))
    &&& ratio_eq(m.sy, axis_factor_exact(v.size.height@, v.pixel_size@))
    &&& ratio_eq(m.tx, axis_trans_exact(v.center.x@, axis_factor_exact(v.size.width@, v.pixel_size@)))
    &&& ratio_eq(m.ty, axis_trans_exact(v.center.y@, axis_factor_exact(v.size.height@, v.pixel_size@)))
}

/// One axis scale factor as the executable code normalises it.
pub open spec fn axis_factor_norm(dim: Ratio, pix: Ratio) -> Option<Ratio> {
    match ratio_norm(ratio_mul(dim, pix)) {
        Some(t) => ratio_norm(ratio_div(ratio_int(2), t)),
        None => None,
    }
}

/// One translation entry as the executable code normalises it.
pub open spec fn axis_trans_norm(c: Ratio, f: Ratio) -> Option<Ratio> {
    ratio_norm(ratio_mul(ratio_neg(c), f))
}

/// The whole projection as the executable code normalises it: `None` as
/// soon as one entry leaves the representable range.
pub open spec fn look_to_norm(v: ViewData) -> Option<ProjRatio> {
    match axis_factor_norm(v.size.width@, v.pixel_size@) {
        None => None,
        Some(sx) => match axis_factor_norm(v.size.height@, v.pixel_size@) {
            None => None,
            Some(sy) => match axis_trans_norm(v.center.x@, sx) {
                None => None,
                Some(tx) => match axis_trans_norm(v.center.y@, sy) {
                    None => None,
                    Some(ty) => Some(ProjRatio { sx, sy, tx, ty }),
                },
            },
        },
    }
}

/// The scale that makes the extent `e` exactly fit the viewport of `v`:
/// `max(e.width / viewport_width, e.height / viewport_height)`, exactly.
pub open spec fn range_scale_exact(v: ViewData, e: WorldSize) -> Ratio {
    let a = ratio_div(e.width@, v.size.width@);
    let b = ratio_div(e.height@, v.size.height@);
    if ratio_le(a, b) {
        b
    } else {
        a
    }
}

/// The fitted scale as the executable code normalises it.
pub open spec fn range_scale_norm(v: ViewData, e: WorldSize) -> Option<Ratio> {
    match ratio_norm(ratio_div(e.width@, v.size.width@)) {
        Some(a) => match ratio_norm(ratio_div(e.height@, v.size.height@)) {
            Some(b) => Some(
                if ratio_le(a, b) {
                    b
                } else {
                    a
                },
            ),
            None => None,
        },
        None => None,
    }
}

/// One transformed coordinate, `s * c + t`, as the executable code
/// normalises it.
pub open spec fn transform_axis_norm(s: Ratio, t: Ratio, c: Ratio) -> Option<Ratio> {
    match ratio_norm(ratio_mul(s, c)) {
        Some(sc) => ratio_norm(ratio_add(sc, t)),
        None => None,
    }
}

/// The world-to-viewport transform: `x' = sx * x + tx`, `y' = sy * y + ty`,
/// as a 4x4 homogeneous matrix with only the diagonal scale and the
/// translation populated.
#[derive(Clone, Copy, Debug)]
pub struct ProjMatrix {
    pub sx: Rat,
    pub sy: Rat,
    pub tx: Rat,
    pub ty: Rat,
}

impl View for ProjMatrix {
    type V = ProjRatio;

    open spec fn view(&self) -> ProjRatio {
        ProjRatio { sx: self.sx@, sy: self.sy@, tx: self.tx@, ty: self.ty@ }
    }
}

impl ProjMatrix {
    /// All four entries are stored well-formed rationals.
    pub open spec fn wf(self) -> bool {
        self.sx.wf() && self.sy.wf() && self.tx.wf() && self.ty.wf()
    }

    /// The projection for the current view descriptor. Fails only when an
    /// entry leaves the representable range, exactly as [`look_to_norm`]
    /// says; a returned matrix holds exactly the entries the derivation in
    /// [`matrix_matches`] calls for. Degenerate (zero) viewport dimensions
    /// must be filtered by the caller.
    pub fn look_to(view_data: &ViewData) -> (r: Option<ProjMatrix>)
        requires
            view_data.wf(),
            view_data.size.positive(),
        ensures
            (match r {
                Some(m) => {
                    &&& m.wf()
                    &&& look_to_norm(*view_data) == Some(m@)
                    &&& matrix_matches(m@, *view_data)
                },
                None => look_to_norm(*view_data) is None,
            }),
    {
        let ghost wr = view_data.size.width@;
        let ghost hr = view_data.size.height@;
        let ghost pr = view_data.pixel_size@;
        let two = Rat::from_i32(2);
        let tw = match view_data.size.width.mul(&view_data.pixel_size) {
            Some(t) => t,
            None => {
                return None;
            },
        };
        proof {
            lemma_mul_pos_valid(wr, pr);
            lemma_norm_keeps_positive(ratio_mul(wr, pr), tw@);
        }
        let sx = match two.div(&tw) {
            Some(s) => s,
            None => {
                proof {
                    lemma_axis_factor_none(wr, pr, tw@);
                }
                return None;
            },
        };
        proof {
            lemma_axis_factor_step(wr, pr, tw@, sx@);
        }
        let th = match view_data.size.height.mul(&view_data.pixel_size) {
            Some(t) => t,
            None => {
                return None;
            },
        };
        proof {
            lemma_mul_pos_valid(hr, pr);
            lemma_norm_keeps_positive(ratio_mul(hr, pr), th@);
        }
        let sy = match two.div(&th) {
            Some(s) => s,
            None => {
                proof {
                    lemma_axis_factor_none(hr, pr, th@);
                }
                return None;
            },
        };
        proof {
            lemma_axis_factor_step(hr, pr, th@, sy@);
        }
        let tx = match view_data.center.x.neg().mul(&sx) {
            Some(t) => t,
            None => {
                return None;
            },
        };
        proof {
            lemma_axis_trans_step(view_data.center.x@, sx@, axis_factor_exact(wr, pr), tx@);
        }
        let ty = match view_data.center.y.neg().mul(&sy) {
            Some(t) => t,
            None => {
                return None;
            },
        };
        proof {
            lemma_axis_trans_step(view_data.center.y@, sy@, axis_factor_exact(hr, pr), ty@);
        }
        Some(ProjMatrix { sx, sy, tx, ty })
    }

    /// Re-derive the scale so that the world extent `size` exactly fits the
    /// current viewport, store it in the view descriptor (the one documented
    /// mutation), then project as [`ProjMatrix::look_to`] does. When the
    /// fitted scale is not representable the descriptor is left untouched
    /// and no matrix is produced.
    pub fn look_to_range(view_data: &mut ViewData, size: &WorldSize) -> (r: Option<ProjMatrix>)
        requires
            old(view_data).wf(),
            old(view_data).size.positive(),
            size.wf(),
            size.positive(),
        ensures
            (match range_scale_norm(*old(view_data), *size) {
                Some(s) => {
                    &&& final(view_data).pixel_size@ == s
                    &&& ratio_eq(s, range_scale_exact(*old(view_data), *size))
                    &&& final(view_data).center == old(view_data).center
                    &&& final(view_data).size == old(view_data).size
                    &&& final(view_data).wf()
                    &&& (match r {
                        Some(m) => {
                            &&& m.wf()
                            &&& look_to_norm(*final(view_data)) == Some(m@)
                            &&& matrix_matches(m@, *final(view_data))
                        },
                        None => look_to_norm(*final(view_data)) is None,
                    })
                },
                None => r is None && *final(view_data) == *old(view_data),
            }),
    {
        let ghost vw = view_data.size.width@;
        let ghost vh = view_data.size.height@;
        let a = match size.width.div(&view_data.size.width) {
            Some(a) => a,
            None => {
                return None;
            },
        };
        proof {
            lemma_div_pos_valid(size.width@, vw);
            lemma_norm_keeps_positive(ratio_div(size.width@, vw), a@);
        }
        let b = match size.height.div(&view_data.size.height) {
            Some(b) => b,
            None => {
                return None;
            },
        };
        proof {
            lemma_div_pos_valid(size.height@, vh);
            lemma_norm_keeps_positive(ratio_div(size.height@, vh), b@);
            lemma_le_congruence(
                a@,
                ratio_div(size.width@, vw),
                b@,
                ratio_div(size.height@, vh),
            );
        }
        let c = a.max(&b);
        view_data.pixel_size = c;
        Self::look_to(view_data)
    }

    /// Apply the transform to a world point: the viewport coordinates
    /// `(sx * x + tx, sy * y + ty)`, reduced; `None` exactly when a
    /// coordinate leaves the representable range.
    pub fn transform_point2d(&self, point: &WorldPoint) -> (r: Option<ViewportPoint>)
        requires
            self.wf(),
            point.wf(),
        ensures
            (match r {
                Some(q) => {
                    &&& q.wf()
                    &&& transform_axis_norm(self@.sx, self@.tx, point.x@) == Some(q.x@)
                    &&& transform_axis_norm(self@.sy, self@.ty, point.y@) == Some(q.y@)
                    &&& ratio_eq(q.x@, ratio_add(ratio_mul(self@.sx, point.x@), self@.tx))
                    &&& ratio_eq(q.y@, ratio_add(ratio_mul(self@.sy, point.y@), self@.ty))
                },
                None => {
                    transform_axis_norm(self@.sx, self@.tx, point.x@) is None || transform_axis_norm(
                        self@.sy,
                        self@.ty,
                        point.y@,
                    ) is None
                },
            }),
    {
        let x = match Self::transform_axis(&self.sx, &self.tx, &point.x) {
            Some(x) => x,
            None => {
                return None;
            },
        };
        let y = match Self::transform_axis(&self.sy, &self.ty, &point.y) {
            Some(y) => y,
            None => {
                return None;
            },
        };
        Some(Point2::new(x, y))
    }

    /// One coordinate of the transform: `s * c + t`, reduced.
    fn transform_axis(s: &Rat, t: &Rat, c: &Rat) -> (r: Option<Rat>)
        requires
            s.wf(),
            t.wf(),
            c.wf(),
        ensures
            (match r {
                Some(v) => {
                    &&& v.wf()
                    &&& transform_axis_norm(s@, t@, c@) == Some(v@)
                    &&& ratio_eq(v@, ratio_add(ratio_mul(s@, c@), t@))
                },
                None => transform_axis_norm(s@, t@, c@) is None,
            }),
    {
        let sc = match s.mul(c) {
            Some(sc) => sc,
            None => {
                return None;
            },
        };
        let v = match sc.add(t) {
            Some(v) => v,
            None => {
                return None;
            },
        };
        proof {
            lemma_pos_prod(s@.d, c@.d);
            lemma_pos_prod(sc@.d, t@.d);
            lemma_pos_prod(ratio_mul(s@, c@).d, t@.d);
            lemma_add_congruence(sc@, ratio_mul(s@, c@), t@, t@);
            lemma_ratio_eq_trans(
                v@,
                ratio_add(sc@, t@),
                ratio_add(ratio_mul(s@, c@), t@),
            );
        }
        Some(v)
    }
}

/// When dividing two by the stored product fails, the axis factor chain
/// fails.
proof fn lemma_axis_factor_none(dim: Ratio, pix: Ratio, t: Ratio)
    requires
        ratio_norm(ratio_mul(dim, pix)) == Some(t),
        ratio_norm(ratio_div(ratio_int(2), t)) is None,
    ensures
        axis_factor_norm(dim, pix) is None,
{
}

/// A successfully stored axis factor equals the exact one.
proof fn lemma_axis_factor_step(dim: Ratio, pix: Ratio, t: Ratio, s: Ratio)
    requires
        ratio_valid(dim),
        ratio_valid(pix),
        ratio_lt(ratio_int(0), dim),
        ratio_lt(ratio_int(0), pix),
        ratio_norm(ratio_mul(dim, pix)) == Some(t),
        ratio_norm(ratio_div(ratio_int(2), t)) == Some(s),
    ensures
        axis_factor_norm(dim, pix) == Some(s),
        ratio_valid(s),
        ratio_eq(s, axis_factor_exact(dim, pix)),
        ratio_lt(ratio_int(0), s),
{
    lemma_mul_pos_valid(dim, pix);
    lemma_norm_keeps_positive(ratio_mul(dim, pix), t);
    lemma_div_pos_valid(ratio_int(2), t);
    lemma_reduce_eq(ratio_div(ratio_int(2), t));
    lemma_div_congruence(ratio_int(2), ratio_int(2), t, ratio_mul(dim, pix));
    lemma_div_pos_valid(ratio_int(2), ratio_mul(dim, pix));
    lemma_ratio_eq_trans(s, ratio_div(ratio_int(2), t), axis_factor_exact(dim, pix));
    lemma_le_congruence(ratio_int(0), ratio_int(0), ratio_div(ratio_int(2), t), s);
}

/// A successfully stored translation entry equals the exact one, given that
/// the stored axis factor equals the exact one.
proof fn lemma_axis_trans_step(c: Ratio, s: Ratio, s_exact: Ratio, t: Ratio)
    requires
        ratio_valid(c),
        ratio_valid(s),
        ratio_valid(s_exact),
        ratio_eq(s, s_exact),
        ratio_norm(ratio_mul(ratio_neg(c), s)) == Some(t),
    ensures
        axis_trans_norm(c, s) == Some(t),
        ratio_valid(t),
        ratio_eq(t, axis_trans_exact(c, s_exact)),
{
    lemma_pos_prod(c.d, s.d);
    lemma_reduce_eq(ratio_mul(ratio_neg(c), s));
    lemma_mul_congruence(ratio_neg(c), ratio_neg(c), s, s_exact);
    lemma_pos_prod(c.d, s_exact.d);
    lemma_ratio_eq_trans(t, ratio_mul(ratio_neg(c), s), axis_trans_exact(c, s_exact));
}

} // verus!
