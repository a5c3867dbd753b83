use sceneview::controller::Controller;
use sceneview::data::{ScreenSize, ViewData, WorldPoint, WorldSize};
use sceneview::matrix::ProjMatrix;
use sceneview::rational::Rat;

fn whole(n: i64) -> Rat {
    Rat::new(n, 1).unwrap()
}

fn frac(n: i64, d: i64) -> Rat {
    Rat::new(n, d).unwrap()
}

fn view_for_projection() -> ViewData {
    ViewData {
        size: ScreenSize::new(whole(1024), whole(720)),
        center: WorldPoint::new(whole(-10), whole(-10)),
        pixel_size: whole(2),
    }
}

#[test]
fn test_wpoint_to_spoint() {
    let mut view_data = view_for_projection();
    let point = WorldPoint::new(whole(12), whole(20));

    let proj_mat = ProjMatrix::look_to(&view_data).unwrap();
    let q = proj_mat.transform_point2d(&point).unwrap();
    assert!(q.x.eq_value(&frac(11, 512)));
    assert!(q.y.eq_value(&frac(15, 360)));

    let proj_mat =
        ProjMatrix::look_to_range(&mut view_data, &WorldSize::new(whole(80), whole(80))).unwrap();
    assert!(view_data.pixel_size.eq_value(&frac(80, 720)));
    // 22 / pixel_size / 512 and 30 / pixel_size / 360, with pixel_size 1/9.
    let q = proj_mat.transform_point2d(&point).unwrap();
    assert!(q.x.eq_value(&frac(198, 512)));
    assert!(q.y.eq_value(&frac(270, 360)));
}

// Projection linearity, viewport convention: the descriptor with
// center (-10,-10), viewport (1024,720) and scale 2 sends (12,20) to
// (11/512, 15/360).
#[test]
fn projection_linearity_viewport() {
    let view_data = view_for_projection();
    let point = WorldPoint::new(whole(12), whole(20));
    let m = ProjMatrix::look_to(&view_data).unwrap();
    // The populated entries themselves: 1/1024 and 1/720 diagonal,
    // 10/1024 and 10/720 translation.
    assert!(m.sx.eq_value(&frac(1, 1024)));
    assert!(m.sy.eq_value(&frac(1, 720)));
    assert!(m.tx.eq_value(&frac(10, 1024)));
    assert!(m.ty.eq_value(&frac(10, 720)));
    let q = m.transform_point2d(&point).unwrap();
    assert!(q.x.eq_value(&frac(11, 512)));
    assert!(q.y.eq_value(&frac(15, 360)));
}

// Projection linearity, screen-pixel convention: the same descriptor sends
// (12,20) to ((12+10)/2 + 1024/2, 720/2 - (20+10)/2) = (523, 345), and the
// screen-to-world conversion inverts it exactly.
#[test]
fn projection_linearity_screen() {
    let view_data = view_for_projection();
    let point = WorldPoint::new(whole(12), whole(20));
    let s = Controller::point_to_screen(&view_data, &point).unwrap();
    assert!(s.x.eq_value(&whole(523)));
    assert!(s.y.eq_value(&whole(345)));
    let back = Controller::point_from_screen(&view_data, &s).unwrap();
    assert!(back.x.eq_value(&point.x));
    assert!(back.y.eq_value(&point.y));
}

// Range-fit idempotence: fitting the same reference extent twice with no
// intervening viewport change derives the very same scale both times.
#[test]
fn range_fit_idempotent() {
    let mut view_data = view_for_projection();
    let extent = WorldSize::new(whole(1000), whole(1000));
    ProjMatrix::look_to_range(&mut view_data, &extent).unwrap();
    let first = view_data.pixel_size;
    ProjMatrix::look_to_range(&mut view_data, &extent).unwrap();
    let second = view_data.pixel_size;
    assert!(first.eq_value(&second));
    assert!(first.eq_value(&frac(1000, 720)));
}

// The range fit picks the larger of the two per-axis ratios, so the whole
// reference extent stays visible in both dimensions.
#[test]
fn range_fit_uses_larger_ratio() {
    let mut view_data = ViewData {
        size: ScreenSize::new(whole(100), whole(400)),
        center: WorldPoint::new(whole(0), whole(0)),
        pixel_size: whole(1),
    };
    let extent = WorldSize::new(whole(50), whole(80));
    ProjMatrix::look_to_range(&mut view_data, &extent).unwrap();
    // max(50/100, 80/400) = 1/2.
    assert!(view_data.pixel_size.eq_value(&frac(1, 2)));
}
