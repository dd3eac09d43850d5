//! Which monitor the pointer is on: the decisions of the low-level mouse
//! hook, which reports a monitor switch only when the pointer leaves the
//! current monitor's rectangle for another monitor.

use vstd::prelude::*;
use crate::display::MonitorHandle;

verus! {

/// A rectangle in desktop coordinates; both edges belong to it.
#[derive(Clone, Copy, Debug, Default, PartialEq, Eq, Structural)]
pub struct Rect {
    pub left: i32,
    pub top: i32,
    pub right: i32,
    pub bottom: i32,
}

/// A point in desktop coordinates.
#[derive(Clone, Copy, Debug, Default, PartialEq, Eq, Structural)]
pub struct Point {
    pub x: i32,
    pub y: i32,
}

pub open spec fn contains_spec(rect: Rect, pt: Point) -> bool {
    rect.left <= pt.x <= rect.right && rect.top <= pt.y <= rect.bottom
}

pub fn contains(rect: Rect, pt: Point) -> (r: bool)
    ensures
        r == contains_spec(rect, pt),
{
    pt.x >= rect.left && pt.x <= rect.right && pt.y >= rect.top && pt.y <= rect.bottom
}

/// The monitor the pointer was last seen on, with its rectangle.
#[derive(Clone, Copy, Debug, PartialEq, Eq, Structural)]
pub struct CursorTracker {
    pub current_monitor: MonitorHandle,
    pub current_rect: Rect,
}

impl CursorTracker {
    pub fn new(monitor: MonitorHandle, rect: Rect) -> (r: CursorTracker)
        ensures
            r.current_monitor == monitor,
            r.current_rect == rect,
    {
        CursorTracker { current_monitor: monitor, current_rect: rect }
    }

    /// Whether a pointer move to `pt` calls for looking up the monitor
    /// under it: only when it left the current monitor's rectangle.
    pub fn needs_lookup(&self, pt: Point) -> (r: bool)
        ensures
            r == !contains_spec(self.current_rect, pt),
    {
        !contains(self.current_rect, pt)
    }

    /// Records the monitor found under the pointer, with its rectangle when
    /// that could be read. Returns whether this is a switch to report: a
    /// different monitor whose rectangle is known.
    pub fn observe(&mut self, monitor: MonitorHandle, rect: Option<Rect>) -> (r: bool)
        ensures
            r == (monitor != old(self).current_monitor && rect is Some),
            r ==> final(self).current_monitor == monitor && final(self).current_rect == rect->0,
            !r ==> *final(self) == *old(self),
    {
        if monitor == self.current_monitor {
            return false;
        }
        match rect {
            Some(rc) => {
                self.current_monitor = monitor;
                self.current_rect = rc;
                true
            },
            None => false,
        }
    }
}

} // verus!
