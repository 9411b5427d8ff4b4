//! The recording overlay: on which monitor it goes, and where on it.

use crate::general_settings::OverlayPosition;
use crate::text::copy_str;
use vstd::prelude::*;

verus! {

/// The place and size of a monitor, in physical pixels.
#[derive(Clone, Copy, Debug, PartialEq, Eq, Structural)]
pub struct MonitorArea {
    pub x: i32,
    pub y: i32,
    pub width: u32,
    pub height: u32,
}

/// The point lies on the monitor: at or beyond its top left corner, and
/// before its right and lower edges.
pub open spec fn within(mouse: (i32, i32), area: MonitorArea) -> bool {
    area.x <= mouse.0 && mouse.0 < area.x + area.width && area.y <= mouse.1 && mouse.1 < area.y
        + area.height
}

/// Whether the mouse is on the monitor.
pub fn is_mouse_within_monitor(mouse: (i32, i32), area: &MonitorArea) -> (r: bool)
    ensures
        r == within(mouse, *area),
{
    let mouse_x: i64 = mouse.0 as i64;
    let mouse_y: i64 = mouse.1 as i64;
    let left: i64 = area.x as i64;
    let top: i64 = area.y as i64;
    mouse_x >= left && mouse_x < left + area.width as i64 && mouse_y >= top && mouse_y < top
        + area.height as i64
}

/// The first monitor that the mouse is on, where its place is known. With
/// `None` the caller falls back on the primary monitor.
pub fn monitor_with_cursor(mouse: Option<(i32, i32)>, monitors: &Vec<MonitorArea>) -> (r: Option<
    usize,
>)
    ensures
        match r {
            Some(i) => mouse is Some && i < monitors.len() && within(
                mouse->0,
                monitors@[i as int],
            ) && forall|j: int| 0 <= j < i ==> !within(mouse->0, monitors@[j]),
            None => mouse is None || forall|j: int|
                0 <= j < monitors.len() ==> !within(mouse->0, monitors@[j]),
        },
{
    match mouse {
        None => None,
        Some(point) => {
            let mut i: usize = 0;
            while i < monitors.len()
                invariant
                    i <= monitors.len(),
                    mouse == Some(point),
                    forall|j: int| 0 <= j < i ==> !within(point, monitors@[j]),
                decreases monitors.len() - i,
            {
                if is_mouse_within_monitor(point, &monitors[i]) {
                    return Some(i);
                }
                i += 1;
            }
            None
        },
    }
}

/// What the overlay is told of its place: nothing where it is switched off,
/// for it is not shown then.
pub fn overlay_position_name(position: OverlayPosition) -> (r: Option<String>)
    ensures
        match position {
            OverlayPosition::Hidden => r is None,
            OverlayPosition::Top => r matches Some(s) && s@ == "top"@,
            OverlayPosition::Bottom => r matches Some(s) && s@ == "bottom"@,
        },
{
    match position {
        OverlayPosition::Hidden => None,
        OverlayPosition::Top => Some(copy_str("top")),
        OverlayPosition::Bottom => Some(copy_str("bottom")),
    }
}

} // verus!
