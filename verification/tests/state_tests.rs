use mvisual::state::{AppState, StateUpdateError};

const S: i64 = 65536;

#[test]
fn advance_overwrites_time_and_canvas() {
    let mut state = AppState::new();
    let r = state.advance(3000 * S, 480 * S, 640 * S);
    assert!(r.is_ok());
    assert_eq!(state.time, 3000 * S);
    assert_eq!(state.canvas_height, 480 * S);
    assert_eq!(state.canvas_width, 640 * S);
}

#[test]
fn advance_rejects_non_positive_canvas() {
    let mut state = AppState::new();
    let before_height = state.canvas_height;
    let r = state.advance(100 * S, 0, 640 * S);
    assert_eq!(r, Err(StateUpdateError::NonPositiveCanvas));
    assert_eq!(state.canvas_height, before_height);
    assert_eq!(state.time, 0);
    let r2 = state.advance(100 * S, 480 * S, -5 * S);
    assert_eq!(r2, Err(StateUpdateError::NonPositiveCanvas));
}

#[test]
fn advance_clamps_oversized_canvas() {
    let mut state = AppState::new();
    let r = state.advance(0, 1, i64::MAX / S);
    assert!(r.is_ok());
    // A sub-pixel height comes up to one pixel, an enormous width
    // comes down to the accepted maximum.
    assert_eq!(state.canvas_height, S);
    assert_eq!(state.canvas_width, 32768 * S);
}

#[test]
fn drag_shifts_viewport_bounds_by_the_delta() {
    let mut state = AppState::new();
    state.on_pointer_down(10 * S, 20 * S);
    assert!(state.mouse_down);
    let left = state.control_left;
    let right = state.control_right;
    let bottom = state.control_bottom;
    let top = state.control_top;
    state.on_pointer_move(25 * S, 22 * S);
    assert_eq!(state.control_left, left + 15 * S);
    assert_eq!(state.control_right, right + 15 * S);
    assert_eq!(state.control_bottom, bottom + 2 * S);
    assert_eq!(state.control_top, top + 2 * S);
    assert_eq!(state.mouse_x, 25 * S);
    assert_eq!(state.mouse_y, 22 * S);
}

#[test]
fn movement_with_pointer_up_only_tracks_position() {
    let mut state = AppState::new();
    let left = state.control_left;
    state.on_pointer_move(25 * S, 22 * S);
    assert_eq!(state.control_left, left);
    assert_eq!(state.mouse_x, 25 * S);
    state.on_pointer_down(1 * S, 1 * S);
    state.on_pointer_up(2 * S, 2 * S);
    assert!(!state.mouse_down);
    state.on_pointer_move(50 * S, 50 * S);
    assert_eq!(state.control_left, left);
}

#[test]
fn drag_clamps_at_the_viewport_limit() {
    let mut state = AppState::new();
    state.on_pointer_down(0, 0);
    state.on_pointer_move(16000 * S, 0);
    state.on_pointer_down(0, 0);
    state.on_pointer_move(16000 * S, 0);
    // Two large drags saturate at the bound instead of overflowing.
    assert_eq!(state.control_right, 16384 * S);
    assert_eq!(state.control_left, 16384 * S);
}
