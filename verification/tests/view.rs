use skilltree::view::{
    PanBounds, PointerInput, ViewTransform, COORD_DENOM, SCREEN_DENOM, SCREEN_LIMIT, ZOOM_DENOM,
    ZOOM_MAX, ZOOM_MIN,
};

fn wide() -> PanBounds {
    PanBounds { min_x: -1_000_000, min_y: -1_000_000, max_x: 1_000_000, max_y: 1_000_000 }
}

#[test]
fn units_stand_for_the_documented_factors() {
    assert_eq!(SCREEN_DENOM, COORD_DENOM as i128 * ZOOM_DENOM as i128);
    assert_eq!(ZOOM_MIN as f64 / ZOOM_DENOM as f64, 0.3);
    assert_eq!(ZOOM_MAX as f64 / ZOOM_DENOM as f64, 1.5);
    // a whole notch of the wheel, 1000 thousandths, is a zoom step of 0.05
    assert_eq!(1000.0 / ZOOM_DENOM as f64, 0.05);
    assert!(SCREEN_LIMIT > 0 && SCREEN_LIMIT < i128::MAX / 8);
}

#[test]
fn view_starts_unpanned_at_zoom_one() {
    let view = ViewTransform::new();
    assert_eq!(view.pos(), [0, 0]);
    assert_eq!(view.zoom(), ZOOM_DENOM);
    assert_eq!(view.last_drag(), [0, 0]);
}

#[test]
fn bounds_know_whether_they_are_ordered() {
    assert!(wide().is_ordered());
    assert!(PanBounds { min_x: 5, min_y: 0, max_x: 5, max_y: 0 }.is_ordered());
    assert!(!PanBounds { min_x: 6, min_y: 0, max_x: 5, max_y: 0 }.is_ordered());
    assert!(!PanBounds { min_x: 0, min_y: 1, max_x: 5, max_y: 0 }.is_ordered());
}

#[test]
fn drag_moves_the_pan_against_the_pointer() {
    let mut view = ViewTransform::new();
    view.drag(true, [30, -20], &wide());
    assert_eq!(view.pos(), [-30, 20]);
    assert_eq!(view.last_drag(), [30, -20]);
}

#[test]
fn drag_applies_only_the_growth_since_the_last_frame() {
    let mut view = ViewTransform::new();
    view.drag(true, [30, -20], &wide());
    view.drag(true, [50, -20], &wide());
    assert_eq!(view.pos(), [-50, 20]);
    assert_eq!(view.last_drag(), [50, -20]);
    // held still: nothing moves
    view.drag(true, [50, -20], &wide());
    assert_eq!(view.pos(), [-50, 20]);
    // moving back
    view.drag(true, [0, 0], &wide());
    assert_eq!(view.pos(), [0, 0]);
}

#[test]
fn releasing_forgets_the_last_drag_and_keeps_the_pan() {
    let mut view = ViewTransform::new();
    view.drag(true, [30, -20], &wide());
    view.drag(false, [999, 999], &wide());
    assert_eq!(view.pos(), [-30, 20]);
    assert_eq!(view.last_drag(), [0, 0]);
    // the next drag starts from zero again
    view.drag(true, [10, 10], &wide());
    assert_eq!(view.pos(), [-40, 10]);
}

#[test]
fn releasing_needs_no_ordered_bounds() {
    let mut view = ViewTransform::new();
    let crossed = PanBounds { min_x: 10, min_y: 10, max_x: -10, max_y: -10 };
    view.drag(false, [1, 1], &crossed);
    assert_eq!(view.pos(), [0, 0]);
}

#[test]
fn drag_keeps_the_pan_inside_the_bounds() {
    let bounds = PanBounds { min_x: -100, min_y: -50, max_x: 100, max_y: 50 };
    let mut view = ViewTransform::new();
    view.drag(true, [1000, -1000], &bounds);
    assert_eq!(view.pos(), [-100, 50]);
    view.drag(true, [-5000, 5000], &bounds);
    assert_eq!(view.pos(), [100, -50]);
}

#[test]
fn drag_survives_the_largest_deltas() {
    let bounds = PanBounds { min_x: -100, min_y: -50, max_x: 100, max_y: 50 };
    let mut view = ViewTransform::new();
    view.drag(true, [i64::MAX, i64::MIN], &bounds);
    assert_eq!(view.pos(), [-100, 50]);
    view.drag(true, [i64::MIN, i64::MAX], &bounds);
    assert_eq!(view.pos(), [100, -50]);
    let all = PanBounds { min_x: i64::MIN, min_y: i64::MIN, max_x: i64::MAX, max_y: i64::MAX };
    let mut far = ViewTransform::new();
    far.drag(true, [i64::MIN, i64::MAX], &all);
    assert_eq!(far.pos(), [i64::MAX, i64::MIN + 1]);
    far.drag(true, [i64::MAX, i64::MAX], &all);
    assert_eq!(far.pos(), [i64::MIN, i64::MIN + 1]);
}

#[test]
fn drag_pulls_a_pan_outside_the_bounds_into_them() {
    let bounds = PanBounds { min_x: 10, min_y: -30, max_x: 20, max_y: -20 };
    let mut view = ViewTransform::new();
    view.drag(true, [0, 0], &bounds);
    assert_eq!(view.pos(), [10, -20]);
}

#[test]
fn wheel_adds_a_twentieth_per_notch() {
    let mut view = ViewTransform::new();
    view.scroll(true, 1000);
    assert_eq!(view.zoom(), 21000);
    view.scroll(true, -2000);
    assert_eq!(view.zoom(), 19000);
    view.scroll(true, 250);
    assert_eq!(view.zoom(), 19250);
    view.scroll(true, 0);
    assert_eq!(view.zoom(), 19250);
}

#[test]
fn wheel_keeps_the_zoom_inside_its_range() {
    let mut view = ViewTransform::new();
    view.scroll(true, 10_001);
    assert_eq!(view.zoom(), ZOOM_MAX);
    view.scroll(true, 1);
    assert_eq!(view.zoom(), ZOOM_MAX);
    view.scroll(true, -24_001);
    assert_eq!(view.zoom(), ZOOM_MIN);
    view.scroll(true, i64::MAX);
    assert_eq!(view.zoom(), ZOOM_MAX);
    view.scroll(true, i64::MIN);
    assert_eq!(view.zoom(), ZOOM_MIN);
    view.scroll(true, 24_000);
    assert_eq!(view.zoom(), ZOOM_MAX);
}

#[test]
fn wheel_away_from_the_surface_changes_nothing() {
    let mut view = ViewTransform::new();
    view.scroll(false, 5000);
    assert_eq!(view.zoom(), ZOOM_DENOM);
    assert_eq!(view.pos(), [0, 0]);
}

#[test]
fn a_frame_pans_and_then_zooms() {
    let bounds = PanBounds { min_x: -100, min_y: -100, max_x: 100, max_y: 100 };
    let mut view = ViewTransform::new();
    let input = PointerInput { dragging: true, drag: [40, 400], hovered: true, wheel: -3000 };
    view.update(&input, &bounds);
    assert_eq!(view.pos(), [-40, -100]);
    assert_eq!(view.last_drag(), [40, 400]);
    assert_eq!(view.zoom(), 17000);
    let idle = PointerInput { dragging: false, drag: [0, 0], hovered: false, wheel: 9000 };
    view.update(&idle, &bounds);
    assert_eq!(view.pos(), [-40, -100]);
    assert_eq!(view.last_drag(), [0, 0]);
    assert_eq!(view.zoom(), 17000);
}

#[test]
fn the_world_origin_lands_on_the_centre() {
    let view = ViewTransform::new();
    // 800 x 600 pixels
    let p = view.to_screen([80_000, 60_000], [0, 0]);
    assert_eq!(p, [400 * SCREEN_DENOM, 300 * SCREEN_DENOM]);
}

#[test]
fn to_screen_is_centre_plus_panned_position_times_zoom() {
    let mut view = ViewTransform::new();
    view.drag(true, [-1500, 2500], &wide());
    view.scroll(true, 10_000);
    assert_eq!(view.pos(), [1500, -2500]);
    assert_eq!(view.zoom(), 30_000);
    let p = view.to_screen([80_000, 60_000], [500, 500]);
    assert_eq!(p[0], 80_000 * 10_000 + (1500 + 500) * 30_000);
    assert_eq!(p[1], 60_000 * 10_000 + (-2500 + 500) * 30_000);
    // in pixels: 400 + 20 * 1.5 and 300 - 20 * 1.5
    assert_eq!(p[0] as f64 / SCREEN_DENOM as f64, 430.0);
    assert_eq!(p[1] as f64 / SCREEN_DENOM as f64, 270.0);
}

#[test]
fn to_screen_takes_the_largest_coordinates() {
    let all = PanBounds { min_x: i64::MIN, min_y: i64::MIN, max_x: i64::MAX, max_y: i64::MAX };
    let mut view = ViewTransform::new();
    view.drag(true, [i64::MIN, i64::MAX], &all);
    view.scroll(true, i64::MAX);
    let p = view.to_screen([i64::MAX, i64::MIN], [i64::MAX, i64::MIN]);
    assert_eq!(p[0], i64::MAX as i128 * 10_000 + (i64::MAX as i128 + i64::MAX as i128) * 30_000);
    assert_eq!(
        p[1],
        i64::MIN as i128 * 10_000 + (i64::MIN as i128 + 1 + i64::MIN as i128) * 30_000
    );
    assert!(p[0] <= SCREEN_LIMIT && p[1] >= -SCREEN_LIMIT);
}

#[test]
fn lengths_scale_with_the_zoom() {
    let mut view = ViewTransform::new();
    assert_eq!(view.scale(50), 50 * SCREEN_DENOM);
    view.scroll(true, -14_000);
    assert_eq!(view.scale(50), 50 * 100 * 6000);
    assert_eq!(view.scale(0), 0);
    assert_eq!(view.scale(usize::MAX), usize::MAX as i128 * 100 * 6000);
}
