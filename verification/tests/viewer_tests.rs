//! The zoom and pan viewport controller.

use noctua::viewer::{
    clamp_offset, scaled_image_size, Bounds, EventStatus, State, Viewer, ViewerEvent,
};

fn bounds() -> Bounds {
    Bounds {
        x: 0,
        y: 0,
        width: 400,
        height: 300,
    }
}

fn wheel(y: i64) -> ViewerEvent {
    ViewerEvent::WheelScrolled { y, px: 200, py: 150 }
}

#[test]
fn wheel_zoom_in_once_multiplies_by_step() {
    // A raster document viewed at 100% with a ten percent step.
    let viewer = Viewer::new(400, 300).scale_step(100).min_scale(250).max_scale(2000);
    let mut state = State::new();
    assert_eq!(state.scale, 1000);
    let status = viewer.on_event(&mut state, bounds(), wheel(1));
    assert_eq!(status, EventStatus::Captured);
    assert_eq!(state.scale, 1100);
}

#[test]
fn repeated_zoom_in_converges_at_max_scale() {
    let viewer = Viewer::new(400, 300).scale_step(100).min_scale(250).max_scale(2000);
    let mut state = State::new();
    for _ in 0..11 {
        viewer.on_event(&mut state, bounds(), wheel(1));
        assert!(state.scale >= viewer.min_scale && state.scale <= viewer.max_scale);
    }
    assert_eq!(state.scale, viewer.max_scale);
    // Further zooming in no longer increases the scale.
    viewer.on_event(&mut state, bounds(), wheel(1));
    assert_eq!(state.scale, viewer.max_scale);
}

#[test]
fn zoom_out_converges_at_min_scale() {
    let viewer = Viewer::new(400, 300).scale_step(100).min_scale(500).max_scale(2000);
    let mut state = State::new();
    for _ in 0..20 {
        viewer.on_event(&mut state, bounds(), wheel(-1));
    }
    assert_eq!(state.scale, viewer.min_scale);
}

#[test]
fn offset_stays_within_clamping_law_after_wheel() {
    let viewer = Viewer::new(400, 300).scale_step(100).min_scale(250).max_scale(8000);
    let mut state = State::new();
    for i in 0..15 {
        let px = 30 + 20 * i;
        viewer.on_event(
            &mut state,
            bounds(),
            ViewerEvent::WheelScrolled { y: 1, px, py: 40 + 10 * i },
        );
        let (sw, sh) = scaled_image_size(&viewer, &state);
        let mx = ((sw - 400) / 2).max(0);
        let my = ((sh - 300) / 2).max(0);
        assert!(state.current_offset.0.abs() <= mx);
        assert!(state.current_offset.1.abs() <= my);
    }
}

#[test]
fn wheel_outside_bounds_is_ignored() {
    let viewer = Viewer::new(400, 300);
    let mut state = State::new();
    let status = viewer.on_event(
        &mut state,
        bounds(),
        ViewerEvent::WheelScrolled { y: 1, px: 500, py: 150 },
    );
    assert_eq!(status, EventStatus::Ignored);
    assert_eq!(state.scale, 1000);
}

#[test]
fn drag_pans_against_the_pointer() {
    // Zoom in far enough that panning has room.
    let viewer = Viewer::new(400, 300).max_scale(4000);
    let mut state = State::new();
    for _ in 0..15 {
        viewer.on_event(&mut state, bounds(), wheel(1));
    }
    let grabbed = viewer.on_event(
        &mut state,
        bounds(),
        ViewerEvent::ButtonPressed { px: 200, py: 150 },
    );
    assert_eq!(grabbed, EventStatus::Captured);
    assert!(state.is_cursor_grabbed());
    let start = state.current_offset;
    viewer.on_event(
        &mut state,
        bounds(),
        ViewerEvent::CursorMoved { px: 190, py: 140 },
    );
    // Dragging left and up moves the visual window right and down.
    assert_eq!(state.current_offset.0, start.0 + 10);
    assert_eq!(state.current_offset.1, start.1 + 10);
    let released = viewer.on_event(&mut state, bounds(), ViewerEvent::ButtonReleased);
    assert_eq!(released, EventStatus::Captured);
    assert!(!state.is_cursor_grabbed());
}

#[test]
fn move_without_drag_is_ignored() {
    let viewer = Viewer::new(400, 300);
    let mut state = State::new();
    let status = viewer.on_event(
        &mut state,
        bounds(),
        ViewerEvent::CursorMoved { px: 10, py: 10 },
    );
    assert_eq!(status, EventStatus::Ignored);
}

#[test]
fn clamp_offset_centers_small_images() {
    // An image no larger than the viewport is forced to exactly zero.
    assert_eq!(clamp_offset((30, -20), (400, 300), (200, 100)), (0, 0));
    // A larger image may pan up to half the overhang.
    assert_eq!(clamp_offset((500, -500), (400, 300), (1000, 700)), (300, -200));
    assert_eq!(clamp_offset((100, 50), (400, 300), (1000, 700)), (100, 50));
}

#[test]
fn external_state_applies_only_without_drag() {
    let viewer = Viewer::new(400, 300).max_scale(4000);
    let mut state = State::new();
    let applied = viewer.sync_external(&mut state, 2000, (5, 6));
    assert!(applied);
    assert_eq!(state.scale, 2000);
    assert_eq!(state.current_offset, (5, 6));
    // Identical external state is not re-applied.
    assert!(!viewer.sync_external(&mut state, 2000, (5, 6)));
    // A drag in progress wins over external state.
    viewer.on_event(
        &mut state,
        bounds(),
        ViewerEvent::ButtonPressed { px: 200, py: 150 },
    );
    assert!(!viewer.sync_external(&mut state, 3000, (0, 0)));
    assert_eq!(state.scale, 2000);
}

#[test]
fn initial_state_honours_external_override() {
    let viewer = Viewer::new(400, 300);
    let stock = viewer.state(None);
    assert_eq!(stock.scale, 1000);
    assert_eq!(stock.current_offset, (0, 0));
    let overridden = viewer.state(Some((2000, (7, -3))));
    assert_eq!(overridden.scale, 2000);
    assert_eq!(overridden.current_offset, (7, -3));
    assert_eq!(overridden.starting_offset, (7, -3));
    assert!(!overridden.is_cursor_grabbed());
}
