//! Restoring the window to the monitor it was closed on.
//!
//! Reading and setting the window position is done by the caller through the
//! windowing system (X11 only; under Wayland a client cannot know or set its
//! own position). This module decides whether a saved position is usable.

use vstd::prelude::*;

verus! {

/// The geometry of a monitor in root-window coordinates.
pub struct MonitorGeometry {
    pub x: i32,
    pub y: i32,
    pub width: i32,
    pub height: i32,
}

/// True when `(x, y)` lies inside the monitor's rectangle (left and top edges
/// included, right and bottom edges excluded).
pub open spec fn contains_point(m: MonitorGeometry, x: i32, y: i32) -> bool {
    &&& m.x <= x
    &&& x < m.x + m.width
    &&& m.y <= y
    &&& y < m.y + m.height
}

/// True when the position lands inside some attached monitor.
///
/// A monitor unplugged between runs would otherwise strand the window
/// off-screen; in that case the caller skips restoring the position and lets
/// the window manager place the window.
pub fn is_on_some_monitor(monitors: &Vec<MonitorGeometry>, x: i32, y: i32) -> (on: bool)
    ensures
        on == exists|i: int| 0 <= i < monitors@.len() && contains_point(#[trigger] monitors@[i], x, y),
{
    let mut i: usize = 0;
    while i < monitors.len()
        invariant
            i <= monitors@.len(),
            forall|j: int| 0 <= j < i ==> !contains_point(#[trigger] monitors@[j], x, y),
        decreases monitors@.len() - i,
    {
        let m = &monitors[i];
        let (mx, my, mw, mh) = (m.x as i64, m.y as i64, m.width as i64, m.height as i64);
        let (px, py) = (x as i64, y as i64);
        if px >= mx && px < mx + mw && py >= my && py < my + mh {
            return true;
        }
        i = i + 1;
    }
    false
}

/// A position is on a monitor exactly when it lies within the monitor's
/// width to the right of its left edge and within its height below its top
/// edge; in particular every point of a monitor at the origin with
/// `0 <= x < width` and `0 <= y < height` is on it.
pub proof fn law_point_on_monitor(m: MonitorGeometry, x: i32, y: i32)
    ensures
        contains_point(m, x, y) <==> (m.x as int <= x as int && (x as int) < m.x as int
            + m.width as int && m.y as int <= y as int && (y as int) < m.y as int + m.height as int),
        m.x == 0 && m.y == 0 && 0 <= x < m.width && 0 <= y < m.height ==> contains_point(m, x, y),
{
}

/// A saved position is restored exactly when one of the monitors spans it:
/// its horizontal offset from the monitor's left edge is below the width and
/// its vertical offset from the top edge is below the height.
pub proof fn law_on_some_monitor(monitors: Seq<MonitorGeometry>, x: i32, y: i32)
    ensures
        (exists|i: int| 0 <= i < monitors.len() && contains_point(#[trigger] monitors[i], x, y))
            <==> (exists|i: int|
            0 <= i < monitors.len() && 0 <= x - (#[trigger] monitors[i]).x < monitors[i].width && 0
                <= y - monitors[i].y < monitors[i].height),
{
    assert forall|i: int| 0 <= i < monitors.len() implies contains_point(#[trigger] monitors[i], x, y)
        <==> (0 <= x - monitors[i].x < monitors[i].width && 0 <= y - monitors[i].y < monitors[i].height) by {
        law_point_on_monitor(monitors[i], x, y);
    }
}

} // verus!
