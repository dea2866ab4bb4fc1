//! Time-varying view state.
//!
//! One instance is shared by every render program: the frame driver
//! overwrites the time and canvas size once per frame, pointer handlers
//! move the viewport bounds while the pointer is down, and render
//! programs read a consistent snapshot.  All writes validate their
//! inputs, so a well-formed state stays well-formed.

use crate::fixed::{FX_DIV_BOUND, SCALE};
use crate::projection::{CANVAS_BOUND, VIEWPORT_BOUND};
use vstd::prelude::*;

verus! {

/// Why a state update was refused.
#[derive(Clone, Copy, Debug, PartialEq, Eq, Structural)]
pub enum StateUpdateError {
    /// A canvas dimension of zero or less would poison the projection
    /// with a division by zero, so it is rejected.
    NonPositiveCanvas,
}

/// A canvas dimension forced into the accepted range: at least one
/// pixel, at most [`CANVAS_BOUND`].
pub open spec fn clamp_canvas(c: int) -> int {
    if c < SCALE {
        SCALE as int
    } else if c > CANVAS_BOUND {
        CANVAS_BOUND as int
    } else {
        c
    }
}

/// A viewport or pointer coordinate forced into the accepted range.
pub open spec fn clamp_view(v: int) -> int {
    if v < -VIEWPORT_BOUND {
        -VIEWPORT_BOUND as int
    } else if v > VIEWPORT_BOUND {
        VIEWPORT_BOUND as int
    } else {
        v
    }
}

/// The process-wide view state.  Canvas dimensions and pointer
/// coordinates are fixed-point pixel counts; the time is fixed-point
/// milliseconds; the rotation fields are fixed-point radians.
pub struct AppState {
    pub time: i64,
    pub canvas_height: i64,
    pub canvas_width: i64,
    pub rotation_x_axis: i64,
    pub rotation_y_axis: i64,
    pub control_bottom: i64,
    pub control_top: i64,
    pub control_left: i64,
    pub control_right: i64,
    pub mouse_down: bool,
    pub mouse_x: i64,
    pub mouse_y: i64,
}

impl AppState {
    /// Every field is inside the range the projection builders accept.
    pub open spec fn wf(self) -> bool {
        &&& -FX_DIV_BOUND <= self.time <= FX_DIV_BOUND
        &&& SCALE <= self.canvas_height <= CANVAS_BOUND
        &&& SCALE <= self.canvas_width <= CANVAS_BOUND
        &&& -FX_DIV_BOUND <= self.rotation_x_axis <= FX_DIV_BOUND
        &&& -FX_DIV_BOUND <= self.rotation_y_axis <= FX_DIV_BOUND
        &&& -VIEWPORT_BOUND <= self.control_bottom <= VIEWPORT_BOUND
        &&& -VIEWPORT_BOUND <= self.control_top <= VIEWPORT_BOUND
        &&& -VIEWPORT_BOUND <= self.control_left <= VIEWPORT_BOUND
        &&& -VIEWPORT_BOUND <= self.control_right <= VIEWPORT_BOUND
        &&& -VIEWPORT_BOUND <= self.mouse_x <= VIEWPORT_BOUND
        &&& -VIEWPORT_BOUND <= self.mouse_y <= VIEWPORT_BOUND
    }

    /// A fresh state: time zero, a one-pixel canvas, a one-pixel
    /// viewport in its corner, no rotation, pointer up at the origin.
    pub fn new() -> (s: AppState)
        ensures
            s.wf(),
            s.time == 0,
            s.canvas_height == SCALE,
            s.canvas_width == SCALE,
            s.rotation_x_axis == 0,
            s.rotation_y_axis == 0,
            s.control_bottom == 0,
            s.control_top == SCALE,
            s.control_left == 0,
            s.control_right == SCALE,
            !s.mouse_down,
            s.mouse_x == 0,
            s.mouse_y == 0,
    {
        AppState {
            time: 0,
            canvas_height: SCALE,
            canvas_width: SCALE,
            rotation_x_axis: 0,
            rotation_y_axis: 0,
            control_bottom: 0,
            control_top: SCALE,
            control_left: 0,
            control_right: SCALE,
            mouse_down: false,
            mouse_x: 0,
            mouse_y: 0,
        }
    }

    /// Overwrites the per-frame fields: elapsed time and canvas size.
    /// Non-positive canvas dimensions are rejected and leave the state
    /// untouched; oversized or sub-pixel ones are clamped into range.
    pub fn advance(&mut self, time: i64, canvas_height: i64, canvas_width: i64) -> (r: Result<
        (),
        StateUpdateError,
    >)
        requires
            old(self).wf(),
            -FX_DIV_BOUND <= time <= FX_DIV_BOUND,
        ensures
            final(self).wf(),
            (r is Ok) <==> (canvas_height > 0 && canvas_width > 0),
            (r is Ok) ==> *final(self) == (AppState {
                time,
                canvas_height: clamp_canvas(canvas_height as int) as i64,
                canvas_width: clamp_canvas(canvas_width as int) as i64,
                ..*old(self)
            }),
            (r is Err) ==> *final(self) == *old(self) && r == (Err::<(), StateUpdateError>(
                StateUpdateError::NonPositiveCanvas,
            )),
    {
        if canvas_height <= 0 || canvas_width <= 0 {
            return Err(StateUpdateError::NonPositiveCanvas);
        }
        self.time = time;
        self.canvas_height = clamp_canvas_exec(canvas_height);
        self.canvas_width = clamp_canvas_exec(canvas_width);
        Ok(())
    }

    /// The pointer went down: remember that and where.
    pub fn on_pointer_down(&mut self, x: i64, y: i64)
        requires
            old(self).wf(),
        ensures
            final(self).wf(),
            *final(self) == (AppState {
                mouse_down: true,
                mouse_x: clamp_view(x as int) as i64,
                mouse_y: clamp_view(y as int) as i64,
                ..*old(self)
            }),
    {
        self.mouse_down = true;
        self.mouse_x = clamp_view_exec(x);
        self.mouse_y = clamp_view_exec(y);
    }

    /// The pointer went up: remember that and where.
    pub fn on_pointer_up(&mut self, x: i64, y: i64)
        requires
            old(self).wf(),
        ensures
            final(self).wf(),
            *final(self) == (AppState {
                mouse_down: false,
                mouse_x: clamp_view(x as int) as i64,
                mouse_y: clamp_view(y as int) as i64,
                ..*old(self)
            }),
    {
        self.mouse_down = false;
        self.mouse_x = clamp_view_exec(x);
        self.mouse_y = clamp_view_exec(y);
    }

    /// The pointer moved.  While it is down, the movement drags the
    /// viewport: each bound shifts by the pointer delta, clamped back
    /// into range.  Either way the position is remembered.
    pub fn on_pointer_move(&mut self, x: i64, y: i64)
        requires
            old(self).wf(),
        ensures
            final(self).wf(),
            ({
                let cx = clamp_view(x as int);
                let cy = clamp_view(y as int);
                let dx = cx - old(self).mouse_x;
                let dy = cy - old(self).mouse_y;
                if old(self).mouse_down {
                    *final(self) == (AppState {
                        control_left: clamp_view(old(self).control_left + dx) as i64,
                        control_right: clamp_view(old(self).control_right + dx) as i64,
                        control_bottom: clamp_view(old(self).control_bottom + dy) as i64,
                        control_top: clamp_view(old(self).control_top + dy) as i64,
                        mouse_x: cx as i64,
                        mouse_y: cy as i64,
                        ..*old(self)
                    })
                } else {
                    *final(self) == (AppState {
                        mouse_x: cx as i64,
                        mouse_y: cy as i64,
                        ..*old(self)
                    })
                }
            }),
    {
        let cx: i64 = clamp_view_exec(x);
        let cy: i64 = clamp_view_exec(y);
        if self.mouse_down {
            let dx: i64 = cx - self.mouse_x;
            let dy: i64 = cy - self.mouse_y;
            self.control_left = clamp_view_exec(self.control_left + dx);
            self.control_right = clamp_view_exec(self.control_right + dx);
            self.control_bottom = clamp_view_exec(self.control_bottom + dy);
            self.control_top = clamp_view_exec(self.control_top + dy);
        }
        self.mouse_x = cx;
        self.mouse_y = cy;
    }
}

/// Clamps a canvas dimension into the accepted range.
fn clamp_canvas_exec(c: i64) -> (r: i64)
    ensures
        r == clamp_canvas(c as int),
{
    if c < SCALE {
        SCALE
    } else if c > CANVAS_BOUND {
        CANVAS_BOUND
    } else {
        c
    }
}

/// Clamps a viewport or pointer coordinate into the accepted range.
fn clamp_view_exec(v: i64) -> (r: i64)
    ensures
        r == clamp_view(v as int),
{
    if v < -VIEWPORT_BOUND {
        -VIEWPORT_BOUND
    } else if v > VIEWPORT_BOUND {
        VIEWPORT_BOUND
    } else {
        v
    }
}

} // verus!
