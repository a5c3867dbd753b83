use sceneview::controller::WindowEvent;
use sceneview::data::WorldSize;
use sceneview::rational::Rat;
use sceneview::scene_system::{SceneSystem, ViewUpdate};

fn number(n: i64) -> Rat {
    Rat::new(n, 1).unwrap()
}

fn fraction(n: i64, d: i64) -> Rat {
    Rat::new(n, d).unwrap()
}

fn reference_extent() -> WorldSize {
    WorldSize::new(number(1000), number(1000))
}

// The dirty flag drives uploads: a clean view uploads nothing, a zoomed
// view uploads exactly once, and the checked read works again afterwards.
#[test]
fn upload_exactly_once_per_change() {
    let mut scene = SceneSystem::new(800, 600);
    assert!(matches!(scene.update(&reference_extent()), ViewUpdate::Unchanged));

    assert!(scene.precess(&WindowEvent::MouseWheel { v: 1 }));
    assert!(scene.current_view().is_err());

    let r = scene.update(&reference_extent());
    match r {
        ViewUpdate::Upload(m) => {
            // scale 4/5: sx = 2 / 800 / (4/5) = 1/320, sy = 2 / 600 / (4/5) = 1/240.
            assert!(m.sx.eq_value(&fraction(1, 320)));
            assert!(m.sy.eq_value(&fraction(1, 240)));
        },
        _ => panic!("expected an upload"),
    }
    assert!(scene.current_view().is_ok());
    assert!(matches!(scene.update(&reference_extent()), ViewUpdate::Unchanged));
}

// A structural resize switches the driver to the range-fitting projection:
// the scale is re-derived so the reference extent exactly fits.
#[test]
fn resize_refits_scale() {
    let mut scene = SceneSystem::new(800, 600);
    assert!(!scene.precess(&WindowEvent::Resized { width: 1000, height: 500 }));
    let r = scene.update(&reference_extent());
    assert!(matches!(r, ViewUpdate::Upload(_)));
    // max(1000/1000, 1000/500) = 2.
    assert!(scene.view_data().pixel_size.eq_value(&number(2)));
    // The one-shot resize signal was consumed within the frame.
    assert!(scene.ctrl.window_resize().is_none());
}

// Without a resize this frame, propagation keeps the current scale even if
// an earlier frame's resize re-fitted it.
#[test]
fn plain_update_keeps_scale() {
    let mut scene = SceneSystem::new(800, 600);
    assert!(scene.precess(&WindowEvent::MouseWheel { v: -2 }));
    let r = scene.update(&reference_extent());
    assert!(matches!(r, ViewUpdate::Upload(_)));
    assert!(scene.view_data().pixel_size.eq_value(&fraction(25, 16)));
}

// A zero-area viewport must never reach the projection engine: the change
// is skipped and stays pending.
#[test]
fn degenerate_viewport_skips_projection() {
    let mut scene = SceneSystem::new(0, 0);
    assert!(scene.precess(&WindowEvent::MouseWheel { v: 1 }));
    assert!(matches!(scene.update(&reference_extent()), ViewUpdate::Skipped));
    assert!(scene.current_view().is_err());
}

// Unknown events are ignored and not consumed.
#[test]
fn other_events_ignored() {
    let mut scene = SceneSystem::new(800, 600);
    assert!(!scene.precess(&WindowEvent::Other));
    assert!(matches!(scene.update(&reference_extent()), ViewUpdate::Unchanged));
}

// Representation limits are reported, not silently mangled.
#[test]
fn rational_range_errors() {
    assert!(Rat::new(1, 0).is_none());
    assert!(Rat::new(5_000_000_000_000_000_000, 1).is_none());
    assert!(Rat::new(-5_000_000_000_000_000_000, 1).is_none());
    assert!(Rat::new(4_611_686_018_427_387_904, 1).is_some());
    // A negative denominator moves the sign into the numerator.
    let r = Rat::new(3, -4).unwrap();
    assert!(r.lt(&Rat::new(0, 1).unwrap()));
    assert!(r.eq_value(&Rat::new(-3, 4).unwrap()));
}
