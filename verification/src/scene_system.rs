//! The scene driver's view-state synchronisation.
//!
//! [`SceneSystem`] owns the dirty-tracked view descriptor and the input
//! controller. Events go through [`SceneSystem::precess`]; once per frame,
//! after event processing and before rendering, [`SceneSystem::update`]
//! propagates a pending view change: when the change includes a structural
//! resize it re-derives the scale against a reference world extent
//! (range-fitting projection), otherwise it projects with the current
//! scale; in both cases it hands the caller the matrix to upload and clears
//! the dirty flag — exactly once per logical change, never redundantly.

use vstd::prelude::*;

verus! {

use crate::controller::{
    Controller,
    CursorState,
    WindowEvent,
    precess_post,
    update_post,
};
use crate::data::{ViewData, WorldSize};
use crate::dirty_flag::{DirtyFlag, StaleRead};
use crate::matrix::{
    ProjMatrix,
    look_to_norm,
    matrix_matches,
    range_scale_exact,
    range_scale_norm,
};
use crate::rational::ratio_eq;

/// What the owning render loop must do after a frame update.
#[derive(Clone, Copy, Debug)]
pub enum ViewUpdate {
    /// The view did not change since the last propagation: upload nothing.
    Unchanged,
    /// The view changed: upload this projection matrix; the dirty flag has
    /// been cleared.
    Upload(ProjMatrix),
    /// The view changed but no projection was computed — the viewport is
    /// currently degenerate (a zero dimension) or an exact entry left the
    /// representable range. Nothing was uploaded and the view stays dirty.
    Skipped,
}

/// The propagation half of a frame update, as a relation between the
/// starting state `s0`, the view descriptor `mid` it leaves behind for the
/// controller's update step, and what the driver hands the renderer: a
/// clean descriptor uploads nothing; a dirty one is projected — with the
/// scale re-fitted to `extent` first when a resize is pending — and
/// cleaned, unless the viewport is degenerate or a value is out of range,
/// in which case it stays dirty and untouched.
pub open spec fn propagate_rel(
    s0: SceneSystem,
    extent: WorldSize,
    mid: DirtyFlag<ViewData>,
    r: ViewUpdate,
) -> bool {
    let v0 = s0.view_data.spec_data();
    if !s0.view_data.spec_dirty() {
        r is Unchanged && mid == s0.view_data
    } else if !v0.size.positive() {
        r is Skipped && mid == s0.view_data
    } else if s0.ctrl.resize_event is Some {
        match range_scale_norm(v0, extent) {
            Some(sc) => {
                &&& mid.spec_data().pixel_size@ == sc
                &&& ratio_eq(sc, range_scale_exact(v0, extent))
                &&& mid.spec_data().center == v0.center
                &&& mid.spec_data().size == v0.size
                &&& (match look_to_norm(mid.spec_data()) {
                    Some(pm) => {
                        &&& (r matches ViewUpdate::Upload(m) && m@ == pm && m.wf()
                            && matrix_matches(m@, mid.spec_data()))
                        &&& !mid.spec_dirty()
                    },
                    None => r is Skipped && mid.spec_dirty(),
                })
            },
            None => {
                &&& r is Skipped
                &&& mid.spec_data() == v0
                &&& mid.spec_dirty()
            },
        }
    } else {
        match look_to_norm(v0) {
            Some(pm) => {
                &&& (r matches ViewUpdate::Upload(m) && m@ == pm && m.wf() && matrix_matches(
                    m@,
                    v0,
                ))
                &&& !mid.spec_dirty()
                &&& mid.spec_data() == v0
            },
            None => r is Skipped && mid == s0.view_data,
        }
    }
}

/// The scene driver's state: the dirty-tracked view descriptor (owned
/// here, the single source of truth) and the input controller that
/// receives a mutable borrow of it.
pub struct SceneSystem {
    pub view_data: DirtyFlag<ViewData>,
    pub ctrl: Controller,
}

impl SceneSystem {
    /// Both owned components are well-formed.
    pub open spec fn wf(self) -> bool {
        self.view_data.spec_data().wf() && self.ctrl.wf()
    }

    /// A fresh driver: camera at the origin with scale one and the given
    /// surface size, clean flag, idle controller.
    pub fn new(width: u32, height: u32) -> (r: SceneSystem)
        ensures
            r.wf(),
            !r.view_data.spec_dirty(),
            r.view_data.spec_data().center.x@ == crate::rational::ratio_int(0),
            r.view_data.spec_data().center.y@ == crate::rational::ratio_int(0),
            r.view_data.spec_data().size.width@ == crate::rational::ratio_int(width as int),
            r.view_data.spec_data().size.height@ == crate::rational::ratio_int(height as int),
            r.view_data.spec_data().pixel_size@ == crate::rational::ratio_int(1),
            r.ctrl.cursor_state.moved is None,
            r.ctrl.resize_event is None,
    {
        SceneSystem {
            view_data: DirtyFlag::new(ViewData::new(width, height)),
            ctrl: Controller::new(),
        }
    }

    /// The current view descriptor, without the staleness check: mid-frame
    /// readers tolerate a value with pending writes.
    pub fn view_data(&self) -> (r: &ViewData)
        ensures
            *r == self.view_data.spec_data(),
    {
        self.view_data.unchecked_read()
    }

    /// The current view descriptor through the checked read, for consumers
    /// that must never observe unpropagated state (camera telemetry
    /// overlays): fails exactly while a write is pending.
    pub fn current_view(&self) -> (r: Result<&ViewData, StaleRead>)
        ensures
            r is Ok <==> !self.view_data.spec_dirty(),
            r matches Ok(v) ==> *v == self.view_data.spec_data(),
    {
        self.view_data.read()
    }

    /// The controller's transient pointer state.
    pub fn cursor_data(&self) -> (r: &CursorState)
        ensures
            *r == self.ctrl.cursor_state,
    {
        &self.ctrl.cursor_state
    }

    /// Feed one input event to the controller; `true` means the event was
    /// consumed and must not be dispatched further.
    pub fn precess(&mut self, event: &WindowEvent) -> (consumed: bool)
        requires
            old(self).wf(),
            event.wf(),
        ensures
            final(self).wf(),
            precess_post(
                old(self).ctrl,
                old(self).view_data,
                *event,
                final(self).ctrl,
                final(self).view_data,
                consumed,
            ),
    {
        self.ctrl.precess(event, &mut self.view_data)
    }

    /// The once-per-frame synchronisation step, run after event processing
    /// and before rendering. First the propagation half ([`propagate_rel`]):
    /// project and clean if dirty, re-fitting the scale to `refit_extent`
    /// when a resize is pending. Then the controller's own update step
    /// ([`update_post`]): apply a pending pan and clear the frame-local
    /// state.
    pub fn update(&mut self, refit_extent: &WorldSize) -> (r: ViewUpdate)
        requires
            old(self).wf(),
            refit_extent.wf(),
            refit_extent.positive(),
        ensures
            final(self).wf(),
            exists|mid: DirtyFlag<ViewData>|
                {
                    &&& #[trigger] propagate_rel(*old(self), *refit_extent, mid, r)
                    &&& update_post(old(self).ctrl, mid, final(self).ctrl, final(self).view_data)
                },
    {
        let ghost s0 = *self;
        let mut result = ViewUpdate::Unchanged;
        if self.view_data.is_dirty() {
            let w_pos = self.view_data.unchecked_read().size.width.is_positive();
            let h_pos = self.view_data.unchecked_read().size.height.is_positive();
            if w_pos && h_pos {
                if self.ctrl.window_resize().is_some() {
                    let vd = self.view_data.write();
                    match ProjMatrix::look_to_range(vd, refit_extent) {
                        Some(m) => {
                            self.view_data.clean_flag();
                            result = ViewUpdate::Upload(m);
                        },
                        None => {
                            result = ViewUpdate::Skipped;
                        },
                    }
                } else {
                    match ProjMatrix::look_to(self.view_data.unchecked_read()) {
                        Some(m) => {
                            self.view_data.clean_flag();
                            result = ViewUpdate::Upload(m);
                        },
                        None => {
                            result = ViewUpdate::Skipped;
                        },
                    }
                }
            } else {
                result = ViewUpdate::Skipped;
            }
        }
        let ghost mid = self.view_data;
        proof {
            assert(propagate_rel(s0, *refit_extent, mid, result));
        }
        self.ctrl.update(&mut self.view_data);
        result
    }
}

} // verus!
