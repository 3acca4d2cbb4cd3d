use tray_shell::compute_position;
use tray_shell::geometry::{
    MonitorBounds, PhysicalPoint, Placement, ScreenRect, WindowSize, EDGE_PADDING,
};

fn icon(x: i32, y: i32, width: u32, height: u32) -> ScreenRect {
    ScreenRect { x, y, width, height }
}

fn window(width: u32, height: u32) -> WindowSize {
    WindowSize { width, height }
}

fn monitor(x: i32, y: i32, width: u32, height: u32) -> MonitorBounds {
    MonitorBounds { x, y, width, height }
}

#[test]
fn padding_is_twelve_pixels() {
    assert_eq!(EDGE_PADDING, 12);
}

#[test]
fn centered_under_icon_without_clamp() {
    let p = compute_position(
        &icon(1000, 20, 24, 24),
        &window(320, 200),
        &monitor(0, 0, 1440, 900),
    );
    assert_eq!(p, Placement { x: 852, y: 44 });
}

#[test]
fn centering_matches_icon_centre_minus_half_width() {
    let rect = icon(400, 0, 40, 30);
    let size = window(200, 100);
    let p = compute_position(&rect, &size, &monitor(0, 0, 1920, 1080));
    let centre = rect.x as i64 + rect.width as i64 / 2;
    assert_eq!(p.x, centre - size.width as i64 / 2);
    assert_eq!(p.x, 320);
}

#[test]
fn half_pixel_centre_rounds_toward_zero() {
    // 1000 + 12 - 160.5 = 851.5
    let p = compute_position(
        &icon(1000, 20, 24, 24),
        &window(321, 200),
        &monitor(0, 0, 1440, 900),
    );
    assert_eq!(p.x, 851);
    // 1000 + 12.5 - 160 = 852.5
    let q = compute_position(
        &icon(1000, 20, 25, 24),
        &window(320, 200),
        &monitor(0, 0, 1440, 900),
    );
    assert_eq!(q.x, 852);
    // 1000 + 12.5 - 160.5 = 852
    let r = compute_position(
        &icon(1000, 20, 25, 24),
        &window(321, 200),
        &monitor(0, 0, 1440, 900),
    );
    assert_eq!(r.x, 852);
}

#[test]
fn negative_half_pixel_rounds_toward_zero() {
    // -1000 + 12.5 - 160 = -1147.5 on a monitor left of the origin
    let p = compute_position(
        &icon(-1000, 0, 25, 24),
        &window(320, 200),
        &monitor(-1920, 0, 1920, 1080),
    );
    assert_eq!(p.x, -1147);
}

#[test]
fn right_edge_clamp_leaves_padding() {
    // centred: 1400 + 12 - 160 = 1252, and 1252 + 320 > 1440
    let p = compute_position(
        &icon(1400, 0, 24, 24),
        &window(320, 200),
        &monitor(0, 0, 1440, 900),
    );
    assert_eq!(p.x, 1440 - 320 - 12);
    assert_eq!(p.x, 1108);
    assert_eq!(p.y, 24);
}

#[test]
fn right_edge_clamp_on_shifted_monitor() {
    let p = compute_position(
        &icon(3300, 10, 24, 24),
        &window(400, 300),
        &monitor(1920, 0, 1440, 900),
    );
    assert_eq!(p.x, 1920 + 1440 - 400 - 12);
}

#[test]
fn window_touching_right_edge_is_not_clamped() {
    // centred: 1268 + 12 - 160 = 1120, and 1120 + 320 == 1440
    let p = compute_position(
        &icon(1268, 0, 24, 24),
        &window(320, 200),
        &monitor(0, 0, 1440, 900),
    );
    assert_eq!(p.x, 1120);
}

#[test]
fn window_half_a_pixel_past_right_edge_is_clamped() {
    // centred: 1268 + 12.5 - 160 = 1120.5, and 1120.5 + 320 > 1440
    let p = compute_position(
        &icon(1268, 0, 25, 24),
        &window(320, 200),
        &monitor(0, 0, 1440, 900),
    );
    assert_eq!(p.x, 1108);
}

#[test]
fn left_edge_clamp_leaves_padding() {
    // centred: 10 + 12 - 160 = -138
    let p = compute_position(
        &icon(10, 0, 24, 24),
        &window(320, 200),
        &monitor(0, 0, 1440, 900),
    );
    assert_eq!(p.x, 12);
}

#[test]
fn window_touching_left_edge_is_not_clamped() {
    // centred: 148 + 12 - 160 = 0
    let p = compute_position(
        &icon(148, 0, 24, 24),
        &window(320, 200),
        &monitor(0, 0, 1440, 900),
    );
    assert_eq!(p.x, 0);
}

#[test]
fn window_wider_than_monitor_is_pinned_left() {
    for x in [-500, 0, 100, 700, 1400, 5000] {
        let p = compute_position(
            &icon(x, 0, 24, 24),
            &window(2000, 200),
            &monitor(100, 0, 1440, 900),
        );
        assert_eq!(p.x, 100 + 12);
    }
}

#[test]
fn left_clamp_overrides_right_clamp_when_padding_does_not_fit() {
    // the right clamp gives 325 - 320 - 12 = -7, which is left of the monitor
    let p = compute_position(
        &icon(300, 0, 24, 24),
        &window(320, 200),
        &monitor(0, 0, 325, 900),
    );
    assert_eq!(p.x, 12);
}

#[test]
fn right_clamp_that_ends_on_left_edge_stays() {
    // the right clamp gives 332 - 320 - 12 = 0, which is the left edge itself
    let p = compute_position(
        &icon(300, 0, 24, 24),
        &window(320, 200),
        &monitor(0, 0, 332, 900),
    );
    assert_eq!(p.x, 0);
}

#[test]
fn vertical_placement_ignores_monitor() {
    let rect = icon(1000, 20, 24, 24);
    let size = window(320, 200);
    for m in [
        monitor(0, 0, 1440, 900),
        monitor(0, 0, 10, 10),
        monitor(-3000, 5000, 800, 30),
        monitor(0, 0, 0, 0),
    ] {
        assert_eq!(compute_position(&rect, &size, &m).y, 44);
    }
}

#[test]
fn vertical_placement_is_not_clamped_to_bottom() {
    let p = compute_position(
        &icon(100, 890, 24, 24),
        &window(320, 2000),
        &monitor(0, 0, 1440, 900),
    );
    assert_eq!(p.y, 914);
}

#[test]
fn extreme_inputs_do_not_overflow() {
    let p = compute_position(
        &icon(i32::MAX, i32::MAX, u32::MAX, u32::MAX),
        &window(0, 0),
        &monitor(i32::MAX, 0, u32::MAX, 0),
    );
    // centred: 2147483647 + 2147483647.5 - 0, within the monitor
    assert_eq!(p.x, 4294967294);
    assert_eq!(p.y, 2147483647 + 4294967295);
    let q = compute_position(
        &icon(i32::MIN, i32::MIN, 0, 0),
        &window(u32::MAX, 0),
        &monitor(i32::MIN, 0, 0, 0),
    );
    assert_eq!(q.x, -2147483648 + 12);
    assert_eq!(q.y, -2147483648);
}

#[test]
fn placement_saturates_for_the_window_system() {
    let p = Placement { x: 852, y: 44 }.to_physical();
    assert_eq!(p, PhysicalPoint { x: 852, y: 44 });
    let q = Placement { x: 5_000_000_000, y: -5_000_000_000 }.to_physical();
    assert_eq!(q, PhysicalPoint { x: i32::MAX, y: i32::MIN });
    let r = Placement { x: 2147483647, y: -2147483648 }.to_physical();
    assert_eq!(r, PhysicalPoint { x: 2147483647, y: -2147483648 });
    let s = Placement { x: 2147483648, y: -2147483649 }.to_physical();
    assert_eq!(s, PhysicalPoint { x: 2147483647, y: -2147483648 });
}
