//! Arena geometry: rectangle anchors, clamping, and arena setup from a
//! viewport. All coordinates are milliunits (thousandths of a world unit).

use crash_ball_core::arena::setup_arena;
use crash_ball_core::arena::WinSize;
use crash_ball_core::clamp;
use crash_ball_core::Rectangle;

#[test]
fn arena_from_850_viewport() {
    // An 850 x 850 viewport with margin 50 gives a 750 x 750 arena
    // centred at the origin.
    let win = WinSize { w: 850_000, h: 850_000 };
    let info = setup_arena(&win).expect("valid viewport");
    let r = info.0;
    assert_eq!(r.x, -375_000);
    assert_eq!(r.y, -375_000);
    assert_eq!(r.w, 750_000);
    assert_eq!(r.h, 750_000);
    let tr = r.top_right();
    assert_eq!(tr.x, 375_000);
    assert_eq!(tr.y, 375_000);
}

#[test]
fn arena_rejects_degenerate_viewport() {
    // A viewport not strictly wider than twice the margin is a fatal
    // configuration error.
    assert!(setup_arena(&WinSize { w: 100_000, h: 850_000 }).is_none());
    assert!(setup_arena(&WinSize { w: 850_000, h: 100_000 }).is_none());
    assert!(setup_arena(&WinSize { w: 0, h: 0 }).is_none());
    assert!(setup_arena(&WinSize { w: 100_001, h: 100_001 }).is_some());
}

#[test]
fn rectangle_edges() {
    let r = Rectangle { x: -375_000, y: -300_000, w: 750_000, h: 600_000 };
    assert_eq!(r.left(), -375_000);
    assert_eq!(r.right(), 375_000);
    assert_eq!(r.bottom(), -300_000);
    assert_eq!(r.top(), 300_000);
}

#[test]
fn rectangle_corner_anchors() {
    let r = Rectangle { x: -375_000, y: -300_000, w: 750_000, h: 600_000 };
    let tl = r.top_left();
    assert_eq!((tl.x, tl.y), (-375_000, 300_000));
    let tr = r.top_right();
    assert_eq!((tr.x, tr.y), (375_000, 300_000));
    let bl = r.bottom_left();
    assert_eq!((bl.x, bl.y), (-375_000, -300_000));
    let br = r.bottom_right();
    assert_eq!((br.x, br.y), (375_000, -300_000));
}

#[test]
fn rectangle_middle_anchors() {
    let r = Rectangle { x: -375_000, y: -300_000, w: 750_000, h: 600_000 };
    let tm = r.top_middle();
    assert_eq!((tm.x, tm.y), (0, 300_000));
    let bm = r.bottom_middle();
    assert_eq!((bm.x, bm.y), (0, -300_000));
    let lm = r.left_middle();
    assert_eq!((lm.x, lm.y), (-375_000, 0));
    let rm = r.right_middle();
    assert_eq!((rm.x, rm.y), (375_000, 0));
}

#[test]
fn middle_anchors_round_down_on_odd_extent() {
    let r = Rectangle { x: 0, y: 0, w: 5, h: 7 };
    assert_eq!(r.bottom_middle().x, 2);
    assert_eq!(r.left_middle().y, 3);
}

#[test]
fn clamp_holds_interval() {
    assert_eq!(clamp(5, 0, 10), 5);
    assert_eq!(clamp(-5, 0, 10), 0);
    assert_eq!(clamp(15, 0, 10), 10);
    assert_eq!(clamp(0, 0, 10), 0);
    assert_eq!(clamp(10, 0, 10), 10);
    assert_eq!(clamp(-3, -3, -1), -3);
}
