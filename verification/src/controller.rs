//! The input-driven view controller.
//!
//! [`Controller`] turns windowing input events into view-descriptor
//! mutations: scroll wheel zooms (exponentially, by
//! [`ZOOM_NUM`]`/`[`ZOOM_DEN`] per click), a held middle button pans with
//! the pointer, and a resize records the new surface size together with a
//! one-shot structural resize signal. Pointer deltas and the resize signal
//! are frame-local: [`Controller::update`] always clears them.

use vstd::prelude::*;

verus! {

use crate::data::{Point2, ScreenPoint, ViewData, Vector2, WorldPoint, WorldVector};
use crate::dirty_flag::DirtyFlag;
use crate::rational::{
    Rat,
    Ratio,
    abs_int,
    ratio_add,
    ratio_div,
    ratio_eq,
    ratio_int,
    ratio_mul,
    ratio_norm,
    ratio_pow,
    ratio_pow_norm,
    ratio_sub,
    ratio_valid,
    lemma_add_congruence,
    lemma_div_congruence,
    lemma_le_congruence,
    lemma_mul_congruence,
    lemma_mul_pos_valid,
    lemma_norm_keeps_positive,
    lemma_pos_prod,
    lemma_pow_norm_eq,
    lemma_pow_pos,
    lemma_ratio_eq_trans,
    lemma_reduce_eq,
    lemma_sub_congruence,
};

/// Numerator of the zoom tuning constant.
pub const ZOOM_NUM: i32 = 4;

/// Denominator of the zoom tuning constant: one "zoom in" scroll click
/// multiplies the scale by `ZOOM_NUM / ZOOM_DEN` (so zooming in shows less
/// world per pixel), one "zoom out" click by its inverse.
pub const ZOOM_DEN: i32 = 5;

/// Whether a mouse button is currently held.
#[derive(Clone, Copy, Debug, PartialEq, Eq, Structural)]
pub enum ElementState {
    Pressed,
    Released,
}

/// The mouse buttons the controller distinguishes.
#[derive(Clone, Copy, Debug, PartialEq, Eq, Structural)]
pub enum MouseButton {
    Left,
    Right,
    Middle,
    Other,
}

/// The input events the controller reacts to, with positions and deltas
/// already carried as plain values.
#[derive(Debug)]
pub enum WindowEvent {
    /// Scroll wheel: `v` vertical clicks, positive for "zoom in".
    MouseWheel { v: i32 },
    /// A button changed state.
    MouseInput { state: ElementState, button: MouseButton },
    /// The pointer moved to this surface position, in pixels, origin in the
    /// top-left corner.
    CursorMoved { position: ScreenPoint },
    /// The surface was resized to this pixel size.
    Resized { width: u32, height: u32 },
    /// Anything else; ignored.
    Other,
}

impl WindowEvent {
    /// Positions carried by the event are stored well-formed rationals.
    pub open spec fn wf(self) -> bool {
        self matches WindowEvent::CursorMoved { position } ==> position.wf()
    }
}

/// Held state of the three tracked buttons.
#[derive(Clone, Copy, Debug, PartialEq, Eq, Structural)]
pub struct InputState {
    pub left: ElementState,
    pub right: ElementState,
    pub middle: ElementState,
}

/// Transient pointer state: the last observed pointer position in world
/// coordinates, and the world-space movement accumulated since the last
/// frame update (`None` when the pointer has not moved this frame).
#[derive(Clone, Copy, Debug)]
pub struct CursorState {
    pub pos: WorldPoint,
    pub moved: Option<WorldVector>,
}

impl CursorState {
    /// Components are stored well-formed rationals.
    pub open spec fn wf(self) -> bool {
        &&& self.pos.wf()
        &&& (self.moved matches Some(m) ==> m.wf())
    }
}

impl Default for CursorState {
    /// Pointer at the world origin, no movement accumulated.
    fn default() -> (r: CursorState)
        ensures
            r.wf(),
            r.pos.x@ == ratio_int(0),
            r.pos.y@ == ratio_int(0),
            r.moved is None,
    {
        CursorState { pos: Point2::origin(), moved: None }
    }
}

/// The zoom factor for one scroll click of the given sign.
pub open spec fn zoom_step(v: int) -> Ratio {
    if v >= 0 {
        Ratio { n: ZOOM_NUM as int, d: ZOOM_DEN as int }
    } else {
        Ratio { n: ZOOM_DEN as int, d: ZOOM_NUM as int }
    }
}

/// The exact zoom factor for a scroll of `v` clicks:
/// `(ZOOM_NUM / ZOOM_DEN) ^ v`, with a negative `v` using the inverse base.
pub open spec fn zoom_factor_exact(v: int) -> Ratio {
    ratio_pow(zoom_step(v), abs_int(v))
}

/// The scale after a scroll of `v` clicks, as the executable code
/// normalises it: `None` when an intermediate power or the final product
/// leaves the representable range (the event is then ignored).
pub open spec fn scroll_scale_norm(s: Ratio, v: int) -> Option<Ratio> {
    match ratio_pow_norm(zoom_step(v), abs_int(v)) {
        Some(f) => ratio_norm(ratio_mul(s, f)),
        None => None,
    }
}

/// Exact screen-to-world conversion, x axis:
/// `(sx - width / 2) * pixel_size + center.x`.
pub open spec fn screen_to_world_x_exact(v: ViewData, sx: Ratio) -> Ratio {
    ratio_add(
        ratio_mul(ratio_sub(sx, ratio_div(v.size.width@, ratio_int(2))), v.pixel_size@),
        v.center.x@,
    )
}

/// Exact screen-to-world conversion, y axis (the pixel y axis points down,
/// world y up): `(height / 2 - sy) * pixel_size + center.y`.
pub open spec fn screen_to_world_y_exact(v: ViewData, sy: Ratio) -> Ratio {
    ratio_add(
        ratio_mul(ratio_sub(ratio_div(v.size.height@, ratio_int(2)), sy), v.pixel_size@),
        v.center.y@,
    )
}

/// Exact world-to-screen conversion, x axis:
/// `(wx - center.x) / pixel_size + width / 2`.
pub open spec fn world_to_screen_x_exact(v: ViewData, wx: Ratio) -> Ratio {
    ratio_add(
        ratio_div(ratio_sub(wx, v.center.x@), v.pixel_size@),
        ratio_div(v.size.width@, ratio_int(2)),
    )
}

/// Exact world-to-screen conversion, y axis:
/// `height / 2 - (wy - center.y) / pixel_size`.
pub open spec fn world_to_screen_y_exact(v: ViewData, wy: Ratio) -> Ratio {
    ratio_sub(
        ratio_div(v.size.height@, ratio_int(2)),
        ratio_div(ratio_sub(wy, v.center.y@), v.pixel_size@),
    )
}

/// Screen-to-world, x axis, as the executable code normalises it.
pub open spec fn screen_to_world_x_norm(v: ViewData, sx: Ratio) -> Option<Ratio> {
    match ratio_norm(ratio_div(v.size.width@, ratio_int(2))) {
        Some(half) => match ratio_norm(ratio_sub(sx, half)) {
            Some(d) => match ratio_norm(ratio_mul(d, v.pixel_size@)) {
                Some(m) => ratio_norm(ratio_add(m, v.center.x@)),
                None => None,
            },
            None => None,
        },
        None => None,
    }
}

/// Screen-to-world, y axis, as the executable code normalises it.
pub open spec fn screen_to_world_y_norm(v: ViewData, sy: Ratio) -> Option<Ratio> {
    match ratio_norm(ratio_div(v.size.height@, ratio_int(2))) {
        Some(half) => match ratio_norm(ratio_sub(half, sy)) {
            Some(d) => match ratio_norm(ratio_mul(d, v.pixel_size@)) {
                Some(m) => ratio_norm(ratio_add(m, v.center.y@)),
                None => None,
            },
            None => None,
        },
        None => None,
    }
}

/// World-to-screen, x axis, as the executable code normalises it.
pub open spec fn world_to_screen_x_norm(v: ViewData, wx: Ratio) -> Option<Ratio> {
    match ratio_norm(ratio_sub(wx, v.center.x@)) {
        Some(d) => match ratio_norm(ratio_div(d, v.pixel_size@)) {
            Some(q) => match ratio_norm(ratio_div(v.size.width@, ratio_int(2))) {
                Some(half) => ratio_norm(ratio_add(q, half)),
                None => None,
            },
            None => None,
        },
        None => None,
    }
}

/// World-to-screen, y axis, as the executable code normalises it.
pub open spec fn world_to_screen_y_norm(v: ViewData, wy: Ratio) -> Option<Ratio> {
    match ratio_norm(ratio_sub(wy, v.center.y@)) {
        Some(d) => match ratio_norm(ratio_div(d, v.pixel_size@)) {
            Some(q) => match ratio_norm(ratio_div(v.size.height@, ratio_int(2))) {
                Some(half) => ratio_norm(ratio_sub(half, q)),
                None => None,
            },
            None => None,
        },
        None => None,
    }
}

/// Everything [`Controller::precess`] promises, as a relation between the
/// controller and view-descriptor states before (`c0`, `v0`) and after
/// (`c1`, `v1`) handling `event`, and whether the event was consumed.
pub open spec fn precess_post(
    c0: Controller,
    v0: DirtyFlag<ViewData>,
    event: WindowEvent,
    c1: Controller,
    v1: DirtyFlag<ViewData>,
    consumed: bool,
) -> bool {
    (match event {
                WindowEvent::MouseWheel { v } => {
                    &&& consumed
                    &&& c1 == c0
                    &&& (match scroll_scale_norm(v0.spec_data().pixel_size@, v as int) {
                        Some(s) => {
                            &&& v1.spec_dirty()
                            &&& v1.spec_data().pixel_size@ == s
                            &&& ratio_eq(
                                s,
                                ratio_mul(
                                    v0.spec_data().pixel_size@,
                                    zoom_factor_exact(v as int),
                                ),
                            )
                            &&& v1.spec_data().center == v0.spec_data().center
                            &&& v1.spec_data().size == v0.spec_data().size
                        },
                        None => v1 == v0,
                    })
                },
                WindowEvent::MouseInput { state, button } => {
                    &&& v1 == v0
                    &&& c1.cursor_state == c0.cursor_state
                    &&& c1.resize_event == c0.resize_event
                    &&& (match button {
                        MouseButton::Left => {
                            &&& consumed
                            &&& c1.input_state.left == state
                            &&& c1.input_state.right == c0.input_state.right
                            &&& c1.input_state.middle == c0.input_state.middle
                        },
                        MouseButton::Right => {
                            &&& consumed
                            &&& c1.input_state.left == c0.input_state.left
                            &&& c1.input_state.right == state
                            &&& c1.input_state.middle == c0.input_state.middle
                        },
                        MouseButton::Middle => {
                            &&& consumed
                            &&& c1.input_state.left == c0.input_state.left
                            &&& c1.input_state.right == c0.input_state.right
                            &&& c1.input_state.middle == state
                        },
                        MouseButton::Other => !consumed && c1 == c0,
                    })
                },
                WindowEvent::CursorMoved { position } => {
                    &&& !consumed
                    &&& v1 == v0
                    &&& c1.input_state == c0.input_state
                    &&& c1.resize_event == c0.resize_event
                    &&& cursor_moved_rel(
                        v0.spec_data(),
                        position,
                        c0.cursor_state,
                        c1.cursor_state,
                    )
                },
                WindowEvent::Resized { width, height } => {
                    &&& !consumed
                    &&& c1.cursor_state == c0.cursor_state
                    &&& c1.input_state == c0.input_state
                    &&& c1.resize_event == Some((width, height))
                    &&& v1.spec_dirty()
                    &&& v1.spec_data().size.width@ == ratio_int(width as int)
                    &&& v1.spec_data().size.height@ == ratio_int(height as int)
                    &&& v1.spec_data().center == v0.spec_data().center
                    &&& v1.spec_data().pixel_size == v0.spec_data().pixel_size
                },
                WindowEvent::Other => {
                    &&& !consumed
                    &&& c1 == c0
                    &&& v1 == v0
                },
            })
}

/// The input-driven view controller's state: button states, transient
/// pointer state, and the pending one-shot resize signal.
#[derive(Clone, Copy, Debug)]
pub struct Controller {
    pub cursor_state: CursorState,
    pub input_state: InputState,
    pub resize_event: Option<(u32, u32)>,
}

impl Controller {
    /// Components are stored well-formed rationals.
    pub open spec fn wf(self) -> bool {
        self.cursor_state.wf()
    }

    /// A controller with all buttons released, the pointer at the origin,
    /// nothing accumulated and no resize pending.
    pub fn new() -> (r: Controller)
        ensures
            r.wf(),
            r.input_state == (InputState {
                left: ElementState::Released,
                right: ElementState::Released,
                middle: ElementState::Released,
            }),
            r.cursor_state.moved is None,
            r.cursor_state.pos.x@ == ratio_int(0),
            r.cursor_state.pos.y@ == ratio_int(0),
            r.resize_event is None,
    {
        Controller {
            input_state: InputState {
                left: ElementState::Released,
                right: ElementState::Released,
                middle: ElementState::Released,
            },
            cursor_state: CursorState::default(),
            resize_event: None,
        }
    }

    /// The pending structural resize signal, if a resize event arrived
    /// since the last frame update.
    pub fn window_resize(&self) -> (r: Option<(u32, u32)>)
        ensures
            r == self.resize_event,
    {
        self.resize_event
    }

    /// Convert a surface pixel position to world coordinates through the
    /// given view descriptor. `None` exactly when a normalised intermediate
    /// value leaves the representable range.
    pub fn point_from_screen(view_data: &ViewData, point: &ScreenPoint) -> (r: Option<
        WorldPoint,
    >)
        requires
            view_data.wf(),
            point.wf(),
        ensures
            (match r {
                Some(p) => {
                    &&& p.wf()
                    &&& screen_to_world_x_norm(*view_data, point.x@) == Some(p.x@)
                    &&& screen_to_world_y_norm(*view_data, point.y@) == Some(p.y@)
                    &&& ratio_eq(p.x@, screen_to_world_x_exact(*view_data, point.x@))
                    &&& ratio_eq(p.y@, screen_to_world_y_exact(*view_data, point.y@))
                },
                None => {
                    screen_to_world_x_norm(*view_data, point.x@) is None || screen_to_world_y_norm(
                        *view_data,
                        point.y@,
                    ) is None
                },
            }),
    {
        let ghost v = *view_data;
        let two = Rat::from_i32(2);
        let half_w = match view_data.size.width.div(&two) {
            Some(h) => h,
            None => {
                return None;
            },
        };
        let dx = match point.x.sub(&half_w) {
            Some(d) => d,
            None => {
                return None;
            },
        };
        let mx = match dx.mul(&view_data.pixel_size) {
            Some(m) => m,
            None => {
                return None;
            },
        };
        let wx = match mx.add(&view_data.center.x) {
            Some(w) => w,
            None => {
                return None;
            },
        };
        proof {
            lemma_screen_to_world_x(v, point.x@, half_w@, dx@, mx@, wx@);
        }
        let half_h = match view_data.size.height.div(&two) {
            Some(h) => h,
            None => {
                return None;
            },
        };
        let dy = match half_h.sub(&point.y) {
            Some(d) => d,
            None => {
                return None;
            },
        };
        let my = match dy.mul(&view_data.pixel_size) {
            Some(m) => m,
            None => {
                return None;
            },
        };
        let wy = match my.add(&view_data.center.y) {
            Some(w) => w,
            None => {
                return None;
            },
        };
        proof {
            lemma_screen_to_world_y(v, point.y@, half_h@, dy@, my@, wy@);
        }
        Some(Point2::new(wx, wy))
    }

    /// Convert a world point to surface pixel coordinates through the given
    /// view descriptor: the inverse of [`Controller::point_from_screen`].
    /// `None` exactly when a normalised intermediate value leaves the
    /// representable range.
    pub fn point_to_screen(view_data: &ViewData, point: &WorldPoint) -> (r: Option<ScreenPoint>)
        requires
            view_data.wf(),
            point.wf(),
        ensures
            (match r {
                Some(p) => {
                    &&& p.wf()
                    &&& world_to_screen_x_norm(*view_data, point.x@) == Some(p.x@)
                    &&& world_to_screen_y_norm(*view_data, point.y@) == Some(p.y@)
                    &&& ratio_eq(p.x@, world_to_screen_x_exact(*view_data, point.x@))
                    &&& ratio_eq(p.y@, world_to_screen_y_exact(*view_data, point.y@))
                },
                None => {
                    world_to_screen_x_norm(*view_data, point.x@) is None || world_to_screen_y_norm(
                        *view_data,
                        point.y@,
                    ) is None
                },
            }),
    {
        let ghost v = *view_data;
        let two = Rat::from_i32(2);
        let dx = match point.x.sub(&view_data.center.x) {
            Some(d) => d,
            None => {
                return None;
            },
        };
        let qx = match dx.div(&view_data.pixel_size) {
            Some(q) => q,
            None => {
                return None;
            },
        };
        let half_w = match view_data.size.width.div(&two) {
            Some(h) => h,
            None => {
                return None;
            },
        };
        let sx = match qx.add(&half_w) {
            Some(s) => s,
            None => {
                return None;
            },
        };
        proof {
            lemma_world_to_screen_x(v, point.x@, dx@, qx@, half_w@, sx@);
        }
        let dy = match point.y.sub(&view_data.center.y) {
            Some(d) => d,
            None => {
                return None;
            },
        };
        let qy = match dy.div(&view_data.pixel_size) {
            Some(q) => q,
            None => {
                return None;
            },
        };
        let half_h = match view_data.size.height.div(&two) {
            Some(h) => h,
            None => {
                return None;
            },
        };
        let sy = match half_h.sub(&qy) {
            Some(s) => s,
            None => {
                return None;
            },
        };
        proof {
            lemma_world_to_screen_y(v, point.y@, dy@, qy@, half_h@, sy@);
        }
        Some(Point2::new(sx, sy))
    }

    /// React to one input event: scroll zooms the view (consuming the event), button
    /// transitions update the tracked button state (consuming the event for
    /// tracked buttons), pointer movement accumulates a world-space delta
    /// (never consumed), a resize records the one-shot signal and the new
    /// viewport size (never consumed). An event whose exact effect is not
    /// representable leaves every piece of state untouched.
    pub fn precess(&mut self, event: &WindowEvent, view_data: &mut DirtyFlag<ViewData>) -> (consumed:
        bool)
        requires
            old(self).wf(),
            old(view_data).spec_data().wf(),
            event.wf(),
        ensures
            final(self).wf(),
            final(view_data).spec_data().wf(),
            precess_post(
                *old(self),
                *old(view_data),
                *event,
                *final(self),
                *final(view_data),
                consumed,
            ),
    {
        match event {
            WindowEvent::MouseWheel { v } => {
                let e: u32 = if *v >= 0 {
                    *v as u32
                } else {
                    (-(*v as i64)) as u32
                };
                let base = if *v >= 0 {
                    Rat::from_frac(ZOOM_NUM, ZOOM_DEN)
                } else {
                    Rat::from_frac(ZOOM_DEN, ZOOM_NUM)
                };
                proof {
                    assert(base@ == zoom_step(*v as int));
                    assert(e as nat == abs_int(*v as int));
                }
                let f = match base.pow_norm(e) {
                    Some(f) => f,
                    None => {
                        return true;
                    },
                };
                let s = view_data.unchecked_read().pixel_size;
                let ns = match s.mul(&f) {
                    Some(ns) => ns,
                    None => {
                        return true;
                    },
                };
                proof {
                    let b = zoom_step(*v as int);
                    lemma_pow_norm_eq(b, e as nat);
                    lemma_pow_pos(b, e as nat);
                    lemma_le_congruence(
                        ratio_int(0),
                        ratio_int(0),
                        ratio_pow(b, e as nat),
                        f@,
                    );
                    lemma_mul_pos_valid(s@, f@);
                    lemma_mul_pos_valid(s@, ratio_pow(b, e as nat));
                    lemma_norm_keeps_positive(ratio_mul(s@, f@), ns@);
                    lemma_mul_congruence(s@, s@, f@, ratio_pow(b, e as nat));
                    lemma_ratio_eq_trans(
                        ns@,
                        ratio_mul(s@, f@),
                        ratio_mul(s@, ratio_pow(b, e as nat)),
                    );
                }
                let vd = view_data.write();
                vd.pixel_size = ns;
                true
            },
            WindowEvent::MouseInput { state, button } => {
                match button {
                    MouseButton::Left => {
                        self.input_state.left = *state;
                        true
                    },
                    MouseButton::Right => {
                        self.input_state.right = *state;
                        true
                    },
                    MouseButton::Middle => {
                        self.input_state.middle = *state;
                        true
                    },
                    MouseButton::Other => false,
                }
            },
            WindowEvent::CursorMoved { position } => {
                let ghost v0 = view_data.spec_data();
                let ghost cs0 = self.cursor_state;
                let view = view_data.unchecked_read();
                let np = match Self::point_from_screen(view, position) {
                    Some(p) => p,
                    None => {
                        return false;
                    },
                };
                let dx = match np.x.sub(&self.cursor_state.pos.x) {
                    Some(d) => d,
                    None => {
                        return false;
                    },
                };
                let dy = match np.y.sub(&self.cursor_state.pos.y) {
                    Some(d) => d,
                    None => {
                        return false;
                    },
                };
                let (bx, by) = match &self.cursor_state.moved {
                    Some(m) => (m.x, m.y),
                    None => (Rat::from_i32(0), Rat::from_i32(0)),
                };
                let mx = match bx.add(&dx) {
                    Some(m) => m,
                    None => {
                        return false;
                    },
                };
                let my = match by.add(&dy) {
                    Some(m) => m,
                    None => {
                        return false;
                    },
                };
                proof {
                    lemma_cursor_delta(v0, position.x@, cs0.pos.x@, bx@, np.x@, dx@, mx@, true);
                    lemma_cursor_delta(v0, position.y@, cs0.pos.y@, by@, np.y@, dy@, my@, false);
                }
                self.cursor_state.pos = np;
                self.cursor_state.moved = Some(Vector2::new(mx, my));
                false
            },
            WindowEvent::Resized { width, height } => {
                self.resize_event = Some((*width, *height));
                let vd = view_data.write();
                vd.size = crate::data::Size2::from_pixels(*width, *height);
                false
            },
            WindowEvent::Other => false,
        }
    }

    /// The per-frame update step, run once after event processing: apply
    /// the accumulated pointer delta as a pan while the middle button is
    /// held (subtracting the delta from the view center keeps the point
    /// under the cursor fixed), then unconditionally clear the accumulated
    /// delta and the pending resize signal — neither survives a frame.
    pub fn update(&mut self, view_data: &mut DirtyFlag<ViewData>)
        requires
            old(self).wf(),
            old(view_data).spec_data().wf(),
        ensures
            final(self).wf(),
            final(view_data).spec_data().wf(),
            update_post(*old(self), *old(view_data), *final(self), *final(view_data)),
    {
        if self.input_state.middle == ElementState::Pressed {
            if let Some(moved) = self.cursor_state.moved {
                let ghost v0 = view_data.spec_data();
                let ghost cs0 = self.cursor_state;
                let c = view_data.unchecked_read().center;
                let cx = c.x.sub(&moved.x);
                let cy = c.y.sub(&moved.y);
                let px = self.cursor_state.pos.x.sub(&moved.x);
                let py = self.cursor_state.pos.y.sub(&moved.y);
                match (cx, cy, px, py) {
                    (Some(a), Some(b), Some(c), Some(d)) => {
                        proof {
                            lemma_pan_step(v0.center.x@, moved.x@, a@);
                            lemma_pan_step(v0.center.y@, moved.y@, b@);
                            lemma_pan_step(cs0.pos.x@, moved.x@, c@);
                            lemma_pan_step(cs0.pos.y@, moved.y@, d@);
                        }
                        let vd = view_data.write();
                        vd.center = Point2::new(a, b);
                        self.cursor_state.pos = Point2::new(c, d);
                    },
                    _ => {},
                }
            }
        }
        self.cursor_state.moved = None;
        self.resize_event = None;
    }
}

/// Everything [`Controller::update`] promises, as a relation between the
/// controller and view-descriptor states before (`c0`, `v0`) and after
/// (`c1`, `v1`) the per-frame update step: the pan applied when it was due,
/// and the frame-local state cleared.
pub open spec fn update_post(
    c0: Controller,
    v0: DirtyFlag<ViewData>,
    c1: Controller,
    v1: DirtyFlag<ViewData>,
) -> bool {
    &&& c1.cursor_state.moved is None
    &&& c1.resize_event is None
    &&& c1.input_state == c0.input_state
    &&& (match c0.cursor_state.moved {
        Some(d) => (if c0.input_state.middle == ElementState::Pressed {
            pan_rel(v0.spec_data(), c0.cursor_state, d, v0, v1, c1.cursor_state)
        } else {
            v1 == v0 && c1.cursor_state.pos == c0.cursor_state.pos
        }),
        None => v1 == v0 && c1.cursor_state.pos == c0.cursor_state.pos,
    })
}

/// How a frame update relates the view and the pointer to their previous
/// state when a pan applies: the accumulated delta `d` is subtracted from
/// the view center (marking it dirty) and from the recorded pointer
/// position; when one of the four differences is not representable nothing
/// is touched.
pub open spec fn pan_rel(
    v0: ViewData,
    cs0: CursorState,
    d: WorldVector,
    df0: DirtyFlag<ViewData>,
    df1: DirtyFlag<ViewData>,
    cs1: CursorState,
) -> bool {
    match (
        ratio_norm(ratio_sub(v0.center.x@, d.x@)),
        ratio_norm(ratio_sub(v0.center.y@, d.y@)),
        ratio_norm(ratio_sub(cs0.pos.x@, d.x@)),
        ratio_norm(ratio_sub(cs0.pos.y@, d.y@)),
    ) {
        (Some(cx), Some(cy), Some(px), Some(py)) => {
            &&& df1.spec_dirty()
            &&& df1.spec_data().center.x@ == cx
            &&& df1.spec_data().center.y@ == cy
            &&& ratio_eq(cx, ratio_sub(v0.center.x@, d.x@))
            &&& ratio_eq(cy, ratio_sub(v0.center.y@, d.y@))
            &&& df1.spec_data().size == v0.size
            &&& df1.spec_data().pixel_size == v0.pixel_size
            &&& cs1.pos.x@ == px
            &&& cs1.pos.y@ == py
            &&& ratio_eq(px, ratio_sub(cs0.pos.x@, d.x@))
            &&& ratio_eq(py, ratio_sub(cs0.pos.y@, d.y@))
        },
        _ => df1 == df0 && cs1.pos == cs0.pos,
    }
}

/// How a pointer-move event relates the pointer state to its previous
/// state: the position becomes the event position converted to world
/// coordinates through the (possibly stale) view, and the world-space
/// movement since the old position is added to the accumulated delta; when
/// a conversion or accumulation is not representable the event leaves the
/// state untouched.
pub open spec fn cursor_moved_rel(
    v: ViewData,
    p: ScreenPoint,
    cs0: CursorState,
    cs1: CursorState,
) -> bool {
    let bx = match cs0.moved {
        Some(m) => m.x@,
        None => ratio_int(0),
    };
    let by = match cs0.moved {
        Some(m) => m.y@,
        None => ratio_int(0),
    };
    match (screen_to_world_x_norm(v, p.x@), screen_to_world_y_norm(v, p.y@)) {
        (Some(nx), Some(ny)) => match (
            ratio_norm(ratio_sub(nx, cs0.pos.x@)),
            ratio_norm(ratio_sub(ny, cs0.pos.y@)),
        ) {
            (Some(dx), Some(dy)) => match (
                ratio_norm(ratio_add(bx, dx)),
                ratio_norm(ratio_add(by, dy)),
            ) {
                (Some(mx), Some(my)) => {
                    &&& cs1.pos.x@ == nx
                    &&& cs1.pos.y@ == ny
                    &&& ratio_eq(cs1.pos.x@, screen_to_world_x_exact(v, p.x@))
                    &&& ratio_eq(cs1.pos.y@, screen_to_world_y_exact(v, p.y@))
                    &&& (cs1.moved matches Some(m2) && m2.x@ == mx && m2.y@ == my)
                    &&& ratio_eq(mx, ratio_add(bx, ratio_sub(screen_to_world_x_exact(v, p.x@), cs0.pos.x@)))
                    &&& ratio_eq(my, ratio_add(by, ratio_sub(screen_to_world_y_exact(v, p.y@), cs0.pos.y@)))
                },
                _ => cs1 == cs0,
            },
            _ => cs1 == cs0,
        },
        _ => cs1 == cs0,
    }
}

/// One component of a pan: the stored difference denotes the exact one.
proof fn lemma_pan_step(a: Ratio, b: Ratio, r: Ratio)
    requires
        ratio_valid(a),
        ratio_valid(b),
        ratio_norm(ratio_sub(a, b)) == Some(r),
    ensures
        ratio_valid(r),
        ratio_eq(r, ratio_sub(a, b)),
    {
        lemma_pos_prod(a.d, b.d);
        lemma_reduce_eq(ratio_sub(a, b));
    }

/// One axis of a pointer-move accumulation: links the stored delta and the
/// stored accumulated movement to the exact formulas, given that the
/// stored new position denotes the exact converted position.
proof fn lemma_cursor_delta(
    v: ViewData,
    s: Ratio,
    pos0: Ratio,
    base: Ratio,
    np: Ratio,
    d: Ratio,
    m: Ratio,
    x_axis: bool,
)
    requires
        v.wf(),
        ratio_valid(s),
        ratio_valid(pos0),
        ratio_valid(base),
        ratio_valid(np),
        x_axis ==> ratio_eq(np, screen_to_world_x_exact(v, s)),
        !x_axis ==> ratio_eq(np, screen_to_world_y_exact(v, s)),
        ratio_norm(ratio_sub(np, pos0)) == Some(d),
        ratio_norm(ratio_add(base, d)) == Some(m),
    ensures
        ratio_valid(d),
        ratio_valid(m),
        x_axis ==> ratio_eq(m, ratio_add(base, ratio_sub(screen_to_world_x_exact(v, s), pos0))),
        !x_axis ==> ratio_eq(m, ratio_add(base, ratio_sub(screen_to_world_y_exact(v, s), pos0))),
{
    let ne = if x_axis {
        screen_to_world_x_exact(v, s)
    } else {
        screen_to_world_y_exact(v, s)
    };
    lemma_screen_to_world_exact_valid(v, s);
    lemma_pos_prod(np.d, pos0.d);
    lemma_reduce_eq(ratio_sub(np, pos0));
    lemma_sub_congruence(np, ne, pos0, pos0);
    lemma_pos_prod(ne.d, pos0.d);
    lemma_ratio_eq_trans(d, ratio_sub(np, pos0), ratio_sub(ne, pos0));
    lemma_pos_prod(base.d, d.d);
    lemma_reduce_eq(ratio_add(base, d));
    lemma_add_congruence(base, base, d, ratio_sub(ne, pos0));
    lemma_pos_prod(base.d, ratio_sub(ne, pos0).d);
    lemma_ratio_eq_trans(m, ratio_add(base, d), ratio_add(base, ratio_sub(ne, pos0)));
}

/// The exact screen-to-world results of a well-formed view are valid
/// rationals.
proof fn lemma_screen_to_world_exact_valid(v: ViewData, s: Ratio)
    requires
        v.wf(),
        ratio_valid(s),
    ensures
        ratio_valid(screen_to_world_x_exact(v, s)),
        ratio_valid(screen_to_world_y_exact(v, s)),
{
    lemma_pos_prod(v.size.width@.d, 2);
    lemma_pos_prod(v.size.height@.d, 2);
    lemma_pos_prod(s.d, ratio_div(v.size.width@, ratio_int(2)).d);
    lemma_pos_prod(ratio_div(v.size.height@, ratio_int(2)).d, s.d);
    lemma_pos_prod(ratio_sub(s, ratio_div(v.size.width@, ratio_int(2))).d, v.pixel_size@.d);
    lemma_pos_prod(ratio_sub(ratio_div(v.size.height@, ratio_int(2)), s).d, v.pixel_size@.d);
    lemma_pos_prod(
        ratio_mul(ratio_sub(s, ratio_div(v.size.width@, ratio_int(2))), v.pixel_size@).d,
        v.center.x@.d,
    );
    lemma_pos_prod(
        ratio_mul(ratio_sub(ratio_div(v.size.height@, ratio_int(2)), s), v.pixel_size@).d,
        v.center.y@.d,
    );
}

/// Links the stored results of the world-to-screen x-axis chain to the
/// exact formula.
proof fn lemma_world_to_screen_x(
    v: ViewData,
    w: Ratio,
    d: Ratio,
    q: Ratio,
    half: Ratio,
    s: Ratio,
)
    requires
        v.wf(),
        ratio_valid(w),
        ratio_norm(ratio_sub(w, v.center.x@)) == Some(d),
        ratio_norm(ratio_div(d, v.pixel_size@)) == Some(q),
        ratio_norm(ratio_div(v.size.width@, ratio_int(2))) == Some(half),
        ratio_norm(ratio_add(q, half)) == Some(s),
    ensures
        world_to_screen_x_norm(v, w) == Some(s),
        ratio_valid(s),
        ratio_eq(s, world_to_screen_x_exact(v, w)),
{
    let c = v.center.x@;
    let pix = v.pixel_size@;
    let d_e = ratio_sub(w, c);
    let q_e = ratio_div(d_e, pix);
    let half_e = ratio_div(v.size.width@, ratio_int(2));
    let s_e = ratio_add(q_e, half_e);
    lemma_pos_prod(w.d, c.d);
    lemma_reduce_eq(d_e);
    assert(pix.n > 0);
    lemma_div_pos_pix(d, pix);
    lemma_div_pos_pix(d_e, pix);
    lemma_reduce_eq(ratio_div(d, pix));
    lemma_div_congruence(d, d_e, pix, pix);
    lemma_ratio_eq_trans(q, ratio_div(d, pix), q_e);
    lemma_pos_prod(v.size.width@.d, 2);
    lemma_reduce_eq(half_e);
    lemma_pos_prod(q.d, half.d);
    lemma_reduce_eq(ratio_add(q, half));
    lemma_add_congruence(q, q_e, half, half_e);
    lemma_pos_prod(q_e.d, half_e.d);
    lemma_ratio_eq_trans(s, ratio_add(q, half), s_e);
}

/// Links the stored results of the world-to-screen y-axis chain to the
/// exact formula.
proof fn lemma_world_to_screen_y(
    v: ViewData,
    w: Ratio,
    d: Ratio,
    q: Ratio,
    half: Ratio,
    s: Ratio,
)
    requires
        v.wf(),
        ratio_valid(w),
        ratio_norm(ratio_sub(w, v.center.y@)) == Some(d),
        ratio_norm(ratio_div(d, v.pixel_size@)) == Some(q),
        ratio_norm(ratio_div(v.size.height@, ratio_int(2))) == Some(half),
        ratio_norm(ratio_sub(half, q)) == Some(s),
    ensures
        world_to_screen_y_norm(v, w) == Some(s),
        ratio_valid(s),
        ratio_eq(s, world_to_screen_y_exact(v, w)),
{
    let c = v.center.y@;
    let pix = v.pixel_size@;
    let d_e = ratio_sub(w, c);
    let q_e = ratio_div(d_e, pix);
    let half_e = ratio_div(v.size.height@, ratio_int(2));
    let s_e = ratio_sub(half_e, q_e);
    lemma_pos_prod(w.d, c.d);
    lemma_reduce_eq(d_e);
    assert(pix.n > 0);
    lemma_div_pos_pix(d, pix);
    lemma_div_pos_pix(d_e, pix);
    lemma_reduce_eq(ratio_div(d, pix));
    lemma_div_congruence(d, d_e, pix, pix);
    lemma_ratio_eq_trans(q, ratio_div(d, pix), q_e);
    lemma_pos_prod(v.size.height@.d, 2);
    lemma_reduce_eq(half_e);
    lemma_pos_prod(half.d, q.d);
    lemma_reduce_eq(ratio_sub(half, q));
    lemma_sub_congruence(half, half_e, q, q_e);
    lemma_pos_prod(half_e.d, q_e.d);
    lemma_ratio_eq_trans(s, ratio_sub(half, q), s_e);
}

/// The quotient by a positive scale is a valid rational.
proof fn lemma_div_pos_pix(a: Ratio, pix: Ratio)
    by (nonlinear_arith)
    requires
        ratio_valid(a),
        ratio_valid(pix),
        pix.n > 0,
    ensures
        ratio_valid(ratio_div(a, pix)),
{
}

/// Links the stored results of the screen-to-world x-axis chain to the
/// exact formula. (The y axis is proved separately: the subtraction there
/// is flipped.)
proof fn lemma_screen_to_world_x(v: ViewData, s: Ratio, half: Ratio, d: Ratio, m: Ratio, w: Ratio)
    requires
        v.wf(),
        ratio_valid(s),
        ratio_norm(ratio_div(v.size.width@, ratio_int(2))) == Some(half),
        ratio_norm(ratio_sub(s, half)) == Some(d),
        ratio_norm(ratio_mul(d, v.pixel_size@)) == Some(m),
        ratio_norm(ratio_add(m, v.center.x@)) == Some(w),
    ensures
        screen_to_world_x_norm(v, s) == Some(w),
        ratio_valid(w),
        ratio_eq(w, screen_to_world_x_exact(v, s)),
{
    let dim = v.size.width@;
    let c = v.center.x@;
    let half_e = ratio_div(dim, ratio_int(2));
    let d_e = ratio_sub(s, half_e);
    let m_e = ratio_mul(d_e, v.pixel_size@);
    let w_e = ratio_add(m_e, c);
    lemma_pos_prod(dim.d, 2);
    lemma_reduce_eq(half_e);
    lemma_pos_prod(s.d, half.d);
    lemma_reduce_eq(ratio_sub(s, half));
    lemma_sub_congruence(s, s, half, half_e);
    lemma_pos_prod(s.d, half_e.d);
    lemma_ratio_eq_trans(d, ratio_sub(s, half), d_e);
    lemma_pos_prod(d.d, v.pixel_size@.d);
    lemma_reduce_eq(ratio_mul(d, v.pixel_size@));
    lemma_mul_congruence(d, d_e, v.pixel_size@, v.pixel_size@);
    lemma_pos_prod(d_e.d, v.pixel_size@.d);
    lemma_ratio_eq_trans(m, ratio_mul(d, v.pixel_size@), m_e);
    lemma_pos_prod(m.d, c.d);
    lemma_reduce_eq(ratio_add(m, c));
    lemma_add_congruence(m, m_e, c, c);
    lemma_pos_prod(m_e.d, c.d);
    lemma_ratio_eq_trans(w, ratio_add(m, c), w_e);
}

/// Links the stored results of the screen-to-world y-axis chain to the
/// exact formula.
proof fn lemma_screen_to_world_y(v: ViewData, s: Ratio, half: Ratio, d: Ratio, m: Ratio, w: Ratio)
    requires
        v.wf(),
        ratio_valid(s),
        ratio_norm(ratio_div(v.size.height@, ratio_int(2))) == Some(half),
        ratio_norm(ratio_sub(half, s)) == Some(d),
        ratio_norm(ratio_mul(d, v.pixel_size@)) == Some(m),
        ratio_norm(ratio_add(m, v.center.y@)) == Some(w),
    ensures
        screen_to_world_y_norm(v, s) == Some(w),
        ratio_valid(w),
        ratio_eq(w, screen_to_world_y_exact(v, s)),
{
    let c = v.center.y@;
    let half_e = ratio_div(v.size.height@, ratio_int(2));
    let d_e = ratio_sub(half_e, s);
    let m_e = ratio_mul(d_e, v.pixel_size@);
    let w_e = ratio_add(m_e, c);
    lemma_pos_prod(v.size.height@.d, 2);
    lemma_reduce_eq(half_e);
    lemma_pos_prod(half.d, s.d);
    lemma_reduce_eq(ratio_sub(half, s));
    lemma_sub_congruence(half, half_e, s, s);
    lemma_pos_prod(half_e.d, s.d);
    lemma_ratio_eq_trans(d, ratio_sub(half, s), d_e);
    lemma_pos_prod(d.d, v.pixel_size@.d);
    lemma_reduce_eq(ratio_mul(d, v.pixel_size@));
    lemma_mul_congruence(d, d_e, v.pixel_size@, v.pixel_size@);
    lemma_pos_prod(d_e.d, v.pixel_size@.d);
    lemma_ratio_eq_trans(m, ratio_mul(d, v.pixel_size@), m_e);
    lemma_pos_prod(m.d, c.d);
    lemma_reduce_eq(ratio_add(m, c));
    lemma_add_congruence(m, m_e, c, c);
    lemma_pos_prod(m_e.d, c.d);
    lemma_ratio_eq_trans(w, ratio_add(m, c), w_e);
}

} // verus!
