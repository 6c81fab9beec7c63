//! Window geometry: the fixed preview-window size and where to place it
//! on a monitor so that it sits centered, clamped to the visible area.

use vstd::prelude::*;

verus! {

/// Width, in pixels, of the preview window.
pub const WINDOW_WIDTH: u32 = 1280;

/// Height, in pixels, of the preview window.
pub const WINDOW_HEIGHT: u32 = 800;

/// The fixed size of the preview window.
pub fn get_window_size() -> (r: (u32, u32))
    ensures
        r == (WINDOW_WIDTH, WINDOW_HEIGHT),
{
    (WINDOW_WIDTH, WINDOW_HEIGHT)
}

/// Where the window's top-left corner goes so the window sits centered
/// on a monitor of the given size, never above or left of the origin.
pub fn get_centered_window_position(monitor_width: u32, monitor_height: u32) -> (r: (i32, i32))
    ensures
        r.0 == if monitor_width as int >= WINDOW_WIDTH as int {
            (monitor_width - WINDOW_WIDTH) as int / 2
        } else {
            0int
        },
        r.1 == if monitor_height as int >= WINDOW_HEIGHT as int {
            (monitor_height - WINDOW_HEIGHT) as int / 2
        } else {
            0int
        },
{
    let x: i64 = (monitor_width as i64 - WINDOW_WIDTH as i64) / 2;
    let y: i64 = (monitor_height as i64 - WINDOW_HEIGHT as i64) / 2;
    let cx: i64 = if x > 0 { x } else { 0 };
    let cy: i64 = if y > 0 { y } else { 0 };
    proof {
        assert(cx <= i32::MAX && cy <= i32::MAX) by {
            assert(monitor_width <= u32::MAX && monitor_height <= u32::MAX);
        }
    }
    (cx as i32, cy as i32)
}

} // verus!
