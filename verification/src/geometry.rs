//! Placement of the popup window under the tray icon.
//!
//! All coordinates are physical pixels. The horizontal centre of an icon or a
//! window of odd width lies on a half pixel, so the horizontal arithmetic is
//! carried out on doubled values and halved only at the end.

use vstd::prelude::*;

verus! {

/// Gap, in physical pixels, kept between a clamped window and the monitor edge.
pub const EDGE_PADDING: u32 = 12;

/// The tray icon's bounding box on screen.
#[derive(Clone, Copy, Debug, PartialEq, Eq, Structural)]
pub struct ScreenRect {
    pub x: i32,
    pub y: i32,
    pub width: u32,
    pub height: u32,
}

/// Outer size of a window.
#[derive(Clone, Copy, Debug, PartialEq, Eq, Structural)]
pub struct WindowSize {
    pub width: u32,
    pub height: u32,
}

/// Position and size of one monitor in the virtual screen space.
#[derive(Clone, Copy, Debug, PartialEq, Eq, Structural)]
pub struct MonitorBounds {
    pub x: i32,
    pub y: i32,
    pub width: u32,
    pub height: u32,
}

/// Top-left corner computed for a window. Its coordinates are wide enough for
/// every input, so nothing is cut off here.
#[derive(Clone, Copy, Debug, PartialEq, Eq, Structural)]
pub struct Placement {
    pub x: i64,
    pub y: i64,
}

/// A point as the window system takes it.
#[derive(Clone, Copy, Debug, PartialEq, Eq, Structural)]
pub struct PhysicalPoint {
    pub x: i32,
    pub y: i32,
}

/// Half of `v`, rounded toward zero.
pub open spec fn half_toward_zero(v: int) -> int {
    if v >= 0 {
        v / 2
    } else {
        -((-v) / 2)
    }
}

/// Twice the left edge of a window centred under the icon.
pub open spec fn centered_twice(icon: ScreenRect, window: WindowSize) -> int {
    2 * icon.x + icon.width - window.width
}

/// Twice the right edge of the monitor.
pub open spec fn right_edge_twice(monitor: MonitorBounds) -> int {
    2 * (monitor.x + monitor.width)
}

/// The centred window would reach past the monitor's right edge.
pub open spec fn overflows_right(
    icon: ScreenRect,
    window: WindowSize,
    monitor: MonitorBounds,
) -> bool {
    centered_twice(icon, window) + 2 * window.width > right_edge_twice(monitor)
}

/// Twice the left edge once the right edge has been looked at: a window that
/// overflows is pulled back to end `EDGE_PADDING` short of the right edge.
pub open spec fn right_clamped_twice(
    icon: ScreenRect,
    window: WindowSize,
    monitor: MonitorBounds,
) -> int {
    if overflows_right(icon, window, monitor) {
        2 * (monitor.x + monitor.width - window.width - EDGE_PADDING)
    } else {
        centered_twice(icon, window)
    }
}

/// The window would start left of the monitor, after the right edge was looked at.
pub open spec fn underflows_left(
    icon: ScreenRect,
    window: WindowSize,
    monitor: MonitorBounds,
) -> bool {
    right_clamped_twice(icon, window, monitor) < 2 * monitor.x
}

/// Left edge of the placed window.
///
/// The window is centred under the icon; the right edge is checked first, the
/// left edge second, so a window that fits on neither side starts
/// `EDGE_PADDING` inside the left edge.
pub open spec fn position_x(icon: ScreenRect, window: WindowSize, monitor: MonitorBounds) -> int {
    if underflows_left(icon, window, monitor) {
        monitor.x + EDGE_PADDING
    } else {
        half_toward_zero(right_clamped_twice(icon, window, monitor))
    }
}

/// Top edge of the placed window: directly below the icon.
pub open spec fn position_y(icon: ScreenRect) -> int {
    icon.y + icon.height
}

/// `v` brought into the range of `i32`.
pub open spec fn saturated(v: int) -> int {
    if v < i32::MIN {
        i32::MIN as int
    } else if v > i32::MAX {
        i32::MAX as int
    } else {
        v
    }
}

fn halve(v: i64) -> (h: i64)
    requires
        v > i64::MIN,
    ensures
        h == half_toward_zero(v as int),
{
    if v >= 0 {
        v / 2
    } else {
        -((-v) / 2)
    }
}

fn saturate(v: i64) -> (s: i32)
    ensures
        s == saturated(v as int),
{
    if v < i32::MIN as i64 {
        i32::MIN
    } else if v > i32::MAX as i64 {
        i32::MAX
    } else {
        v as i32
    }
}

/// Where to put a window of size `window` so that it hangs centred below the
/// tray icon `icon` and stays within `monitor` horizontally.
///
/// There is no vertical clamp: a window taller than the room below the icon
/// reaches past the bottom of the monitor.
pub fn compute_position(icon: &ScreenRect, window: &WindowSize, monitor: &MonitorBounds) -> (p:
    Placement)
    ensures
        p.x == position_x(*icon, *window, *monitor),
        p.y == icon.y + icon.height,
        !overflows_right(*icon, *window, *monitor) && !underflows_left(*icon, *window, *monitor)
            ==> p.x == half_toward_zero(2 * icon.x + icon.width - window.width),
        overflows_right(*icon, *window, *monitor) && window.width + EDGE_PADDING <= monitor.width
            ==> p.x == monitor.x + monitor.width - window.width - EDGE_PADDING,
        window.width > monitor.width ==> p.x == monitor.x + EDGE_PADDING,
        p.x >= monitor.x,
{
    proof {
        if !overflows_right(*icon, *window, *monitor) && !underflows_left(
            *icon,
            *window,
            *monitor,
        ) {
            centered_when_it_fits(*icon, *window, *monitor);
        }
        if overflows_right(*icon, *window, *monitor) && window.width + EDGE_PADDING
            <= monitor.width {
            right_edge_clamp(*icon, *window, *monitor);
        }
        if window.width > monitor.width {
            left_edge_wins(*icon, *window, *monitor);
        }
        starts_within_monitor(*icon, *window, *monitor);
    }
    let width: i64 = window.width as i64;
    let left_twice: i64 = 2 * (monitor.x as i64);
    let right_twice: i64 = 2 * (monitor.x as i64 + monitor.width as i64);
    let mut twice: i64 = 2 * (icon.x as i64) + icon.width as i64 - width;
    if twice + 2 * width > right_twice {
        twice = right_twice - 2 * width - 2 * (EDGE_PADDING as i64);
    }
    let x: i64 = if twice < left_twice {
        monitor.x as i64 + EDGE_PADDING as i64
    } else {
        halve(twice)
    };
    Placement { x, y: icon.y as i64 + icon.height as i64 }
}

impl Placement {
    /// The placement as the window system takes it: each coordinate brought
    /// into the range of `i32`.
    pub fn to_physical(&self) -> (p: PhysicalPoint)
        ensures
            p.x == saturated(self.x as int),
            p.y == saturated(self.y as int),
    {
        PhysicalPoint { x: saturate(self.x), y: saturate(self.y) }
    }
}

/// Centring: where neither edge forces a clamp, the window's left edge is the
/// icon's centre minus half the window's width, rounded toward zero; where
/// that difference is a whole pixel, it is met exactly.
pub proof fn centered_when_it_fits(icon: ScreenRect, window: WindowSize, monitor: MonitorBounds)
    requires
        !overflows_right(icon, window, monitor),
        !underflows_left(icon, window, monitor),
    ensures
        position_x(icon, window, monitor) == half_toward_zero(centered_twice(icon, window)),
        centered_twice(icon, window) % 2 == 0 ==> 2 * position_x(icon, window, monitor) == 2
            * icon.x + icon.width - window.width,
        icon.width % 2 == 0 && window.width % 2 == 0 ==> position_x(icon, window, monitor)
            == icon.x + icon.width / 2 - window.width / 2,
{
}

/// Right-edge clamp: a centred window that would reach past the right edge
/// ends `EDGE_PADDING` short of it, provided the monitor has room for the
/// window and the padding.
pub proof fn right_edge_clamp(icon: ScreenRect, window: WindowSize, monitor: MonitorBounds)
    requires
        overflows_right(icon, window, monitor),
        window.width + EDGE_PADDING <= monitor.width,
    ensures
        position_x(icon, window, monitor) == monitor.x + monitor.width - window.width
            - EDGE_PADDING,
{
}

/// Left-edge precedence: a window wider than the monitor starts `EDGE_PADDING`
/// inside the left edge, wherever the icon is.
pub proof fn left_edge_wins(icon: ScreenRect, window: WindowSize, monitor: MonitorBounds)
    requires
        window.width > monitor.width,
    ensures
        position_x(icon, window, monitor) == monitor.x + EDGE_PADDING,
{
}

/// The placed window never starts left of the monitor.
pub proof fn starts_within_monitor(icon: ScreenRect, window: WindowSize, monitor: MonitorBounds)
    ensures
        position_x(icon, window, monitor) >= monitor.x,
{
}

} // verus!
