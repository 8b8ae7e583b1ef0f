//! The smallest program on the engine: one sprite that runs across the
//! window, and a second one that shows while the space bar is down.

use vstd::prelude::*;

verus! {

/// The state that the window reports for a key that is down.
pub const GLFW_PRESS: i32 = 1;

/// Where the running sprite starts again, in world units.
pub const RUN_START: i64 = -100_000;

/// Where the run of the sprite ends, in world units.
pub const RUN_END: i64 = 500_000;

/// The step of the running sprite in one frame, in world units.
pub const RUN_STEP: i64 = 1_000;

/// One coordinate of the running sprite after a frame: a step further, or
/// back at the start once it has reached the end of its run.
pub open spec fn run_on(p: int) -> int {
    if p < RUN_END {
        p + RUN_STEP
    } else {
        RUN_START as int
    }
}

/// The position of the running sprite after a frame.
pub fn move_pos(x: i64, y: i64) -> (next: (i64, i64))
    ensures
        next.0 == run_on(x as int),
        next.1 == run_on(y as int),
{
    (
        if x < RUN_END {
            x + RUN_STEP
        } else {
            RUN_START
        },
        if y < RUN_END {
            y + RUN_STEP
        } else {
            RUN_START
        },
    )
}

/// Whether a key is down, given the state that the window reports for it.
pub fn is_pressed(key_state: i32) -> (pressed: bool)
    ensures
        pressed == (key_state == GLFW_PRESS),
{
    key_state == GLFW_PRESS
}

/// Whether the second sprite shows, given the state that the window reports
/// for the space bar: while the bar is down.
pub fn second_sprite_render(current_key_state: i32) -> (render: bool)
    ensures
        render == (current_key_state == GLFW_PRESS),
{
    is_pressed(current_key_state)
}

} // verus!
