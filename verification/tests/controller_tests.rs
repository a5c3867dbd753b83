use sceneview::controller::{Controller, ElementState, MouseButton, WindowEvent};
use sceneview::data::{Point2, ScreenSize, ViewData, WorldPoint};
use sceneview::dirty_flag::DirtyFlag;
use sceneview::rational::Rat;

fn int_rat(n: i64) -> Rat {
    Rat::new(n, 1).unwrap()
}

fn ratio(n: i64, d: i64) -> Rat {
    Rat::new(n, d).unwrap()
}

fn fresh_view() -> DirtyFlag<ViewData> {
    DirtyFlag::new(ViewData {
        center: WorldPoint::new(int_rat(0), int_rat(0)),
        size: ScreenSize::new(int_rat(800), int_rat(600)),
        pixel_size: int_rat(1),
    })
}

fn cursor_event(x: i64, y: i64) -> WindowEvent {
    WindowEvent::CursorMoved { position: Point2::new(int_rat(x), int_rat(y)) }
}

// Round-trip pan: after a simulated middle-drag, projecting a world point
// equals projecting it before the pan and translating by the screen-space
// equivalent of the drag (dx / scale, -dy / scale).
#[test]
fn round_trip_pan() {
    let mut ctrl = Controller::new();
    let mut view = fresh_view();

    let p = WorldPoint::new(int_rat(30), int_rat(40));
    let before = Controller::point_to_screen(view.unchecked_read(), &p).unwrap();
    assert!(before.x.eq_value(&int_rat(430)));
    assert!(before.y.eq_value(&int_rat(260)));

    let press = WindowEvent::MouseInput {
        state: ElementState::Pressed,
        button: MouseButton::Middle,
    };
    assert!(ctrl.precess(&press, &mut view));
    assert!(!ctrl.precess(&cursor_event(400, 300), &mut view));
    assert!(!ctrl.precess(&cursor_event(500, 250), &mut view));
    // The accumulated world-space delta of the drag is (100, 50).
    ctrl.update(&mut view);

    let panned = view.unchecked_read();
    assert!(panned.center.x.eq_value(&int_rat(-100)));
    assert!(panned.center.y.eq_value(&int_rat(-50)));

    let after = Controller::point_to_screen(panned, &p).unwrap();
    // before + (100 / 1, -50 / 1)
    assert!(after.x.eq_value(&int_rat(530)));
    assert!(after.y.eq_value(&int_rat(210)));
}

// Zoom monotonicity: more "zoom in" clicks leave a strictly smaller scale.
#[test]
fn zoom_monotonic() {
    let mut ctrl_a = Controller::new();
    let mut view_a = fresh_view();
    assert!(ctrl_a.precess(&WindowEvent::MouseWheel { v: 1 }, &mut view_a));
    let scale_one_click = view_a.unchecked_read().pixel_size;
    assert!(scale_one_click.eq_value(&ratio(4, 5)));

    let mut ctrl_b = Controller::new();
    let mut view_b = fresh_view();
    assert!(ctrl_b.precess(&WindowEvent::MouseWheel { v: 2 }, &mut view_b));
    let scale_two_clicks = view_b.unchecked_read().pixel_size;
    assert!(scale_two_clicks.eq_value(&ratio(16, 25)));

    assert!(scale_two_clicks.lt(&scale_one_click));
}

// Zooming out multiplies by the inverse factor.
#[test]
fn zoom_out_is_inverse() {
    let mut ctrl = Controller::new();
    let mut view = fresh_view();
    assert!(ctrl.precess(&WindowEvent::MouseWheel { v: -1 }, &mut view));
    assert!(view.unchecked_read().pixel_size.eq_value(&ratio(5, 4)));
    assert!(ctrl.precess(&WindowEvent::MouseWheel { v: 1 }, &mut view));
    assert!(view.unchecked_read().pixel_size.eq_value(&int_rat(1)));
}

// A scroll whose exact result cannot be represented is consumed but leaves
// the view untouched.
#[test]
fn zoom_clamps_when_unrepresentable() {
    let mut ctrl = Controller::new();
    let mut view = fresh_view();
    assert!(ctrl.precess(&WindowEvent::MouseWheel { v: 200 }, &mut view));
    assert!(!view.is_dirty());
    assert!(view.unchecked_read().pixel_size.eq_value(&int_rat(1)));
}

// Scroll marks the view dirty; button events do not.
#[test]
fn dirty_marking_per_event() {
    let mut ctrl = Controller::new();
    let mut view = fresh_view();

    let press = WindowEvent::MouseInput {
        state: ElementState::Pressed,
        button: MouseButton::Left,
    };
    assert!(ctrl.precess(&press, &mut view));
    assert!(!view.is_dirty());

    let other = WindowEvent::MouseInput {
        state: ElementState::Pressed,
        button: MouseButton::Other,
    };
    assert!(!ctrl.precess(&other, &mut view));

    assert!(ctrl.precess(&WindowEvent::MouseWheel { v: 1 }, &mut view));
    assert!(view.is_dirty());
}

// Frame-local transience: the accumulated pointer delta and the pending
// resize signal never survive the frame update.
#[test]
fn frame_local_transience() {
    let mut ctrl = Controller::new();
    let mut view = fresh_view();

    assert!(!ctrl.precess(&cursor_event(410, 290), &mut view));
    assert!(ctrl.cursor_state.moved.is_some());
    assert!(!ctrl.precess(&WindowEvent::Resized { width: 640, height: 480 }, &mut view));
    assert!(ctrl.window_resize() == Some((640, 480)));
    assert!(view.is_dirty());

    ctrl.update(&mut view);
    assert!(ctrl.cursor_state.moved.is_none());
    assert!(ctrl.window_resize().is_none());
}

// A resize records the new viewport size in the view descriptor without
// touching center or scale.
#[test]
fn resize_updates_viewport() {
    let mut ctrl = Controller::new();
    let mut view = fresh_view();
    assert!(!ctrl.precess(&WindowEvent::Resized { width: 1024, height: 768 }, &mut view));
    let v = view.unchecked_read();
    assert!(v.size.width.eq_value(&int_rat(1024)));
    assert!(v.size.height.eq_value(&int_rat(768)));
    assert!(v.center.x.eq_value(&int_rat(0)));
    assert!(v.pixel_size.eq_value(&int_rat(1)));
}

// Pointer moves convert through the current, possibly stale view and are
// never consumed; without the middle button held they do not pan.
#[test]
fn pointer_move_without_drag() {
    let mut ctrl = Controller::new();
    let mut view = fresh_view();
    assert!(!ctrl.precess(&cursor_event(500, 200), &mut view));
    assert!(ctrl.cursor_state.pos.x.eq_value(&int_rat(100)));
    assert!(ctrl.cursor_state.pos.y.eq_value(&int_rat(100)));
    ctrl.update(&mut view);
    assert!(!view.is_dirty());
    let v = view.unchecked_read();
    assert!(v.center.x.eq_value(&int_rat(0)));
    assert!(v.center.y.eq_value(&int_rat(0)));
}
