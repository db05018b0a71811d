use tray_shell::placement::{
    place_window_near_tray, Monitor, Placement, Position, Size, TrayEdge, WindowGeometry,
    DEFAULT_HEIGHT, DEFAULT_WIDTH, MARGIN,
};
use tray_shell::platform::Platform;

fn popup(width: u32, height: u32, monitor: Option<Monitor>) -> WindowGeometry {
    WindowGeometry { outer_size: Some(Size { width, height }), monitor }
}

fn screen(x: i32, y: i32, width: u32, height: u32) -> Monitor {
    Monitor { position: Position { x, y }, size: Size { width, height } }
}

fn icon(x: i32, y: i32) -> (Position, Size) {
    (Position { x, y }, Size { width: 24, height: 24 })
}

fn placed(x: i32, y: i32, edge: TrayEdge) -> Option<Placement> {
    Some(Placement { position: Position { x, y }, edge })
}

#[test]
fn constants_have_their_values() {
    assert_eq!(DEFAULT_WIDTH, 360);
    assert_eq!(DEFAULT_HEIGHT, 572);
    assert_eq!(MARGIN, 8);
}

#[test]
fn popup_hangs_below_a_tray_at_the_top() {
    let window = popup(360, 572, Some(screen(0, 0, 1920, 1080)));
    let (position, size) = icon(1500, 0);
    assert_eq!(
        place_window_near_tray(&window, position, size, Platform::MacOs),
        placed(1332, 0, TrayEdge::Top)
    );
}

#[test]
fn popup_stands_above_a_tray_at_the_bottom() {
    let window = popup(360, 572, Some(screen(0, 0, 1920, 1080)));
    let (position, size) = icon(1500, 1040);
    assert_eq!(
        place_window_near_tray(&window, position, size, Platform::MacOs),
        placed(1332, 468, TrayEdge::Bottom)
    );
}

#[test]
fn the_monitor_decides_the_edge_not_the_platform() {
    let window = popup(360, 572, Some(screen(0, 0, 1920, 1080)));
    let (position, size) = icon(1500, 0);
    assert_eq!(
        place_window_near_tray(&window, position, size, Platform::Other),
        placed(1332, 0, TrayEdge::Top)
    );
    let (position, size) = icon(1500, 1040);
    assert_eq!(
        place_window_near_tray(&window, position, size, Platform::Other),
        placed(1332, 468, TrayEdge::Bottom)
    );
}

#[test]
fn a_tray_exactly_half_way_down_counts_as_bottom() {
    let window = popup(360, 572, Some(screen(0, 0, 1920, 1080)));
    let (position, size) = icon(1500, 540);
    assert_eq!(
        place_window_near_tray(&window, position, size, Platform::MacOs),
        placed(1332, 0, TrayEdge::Bottom)
    );
    let (position, size) = icon(1500, 539);
    assert_eq!(
        place_window_near_tray(&window, position, size, Platform::MacOs),
        placed(1332, 508, TrayEdge::Top)
    );
}

#[test]
fn the_half_height_test_ignores_the_monitor_origin() {
    let window = popup(360, 572, Some(screen(0, 1080, 1920, 1080)));
    let (position, size) = icon(1500, 1090);
    assert_eq!(
        place_window_near_tray(&window, position, size, Platform::MacOs),
        placed(1332, 1080, TrayEdge::Bottom)
    );
}

#[test]
fn popup_is_pulled_back_from_the_right_edge_with_a_margin() {
    let window = popup(360, 572, Some(screen(0, 0, 1920, 1080)));
    let (position, size) = icon(1800, 1040);
    assert_eq!(
        place_window_near_tray(&window, position, size, Platform::Other),
        placed(1552, 468, TrayEdge::Bottom)
    );
}

#[test]
fn popup_touching_the_right_edge_stays() {
    let window = popup(360, 572, Some(screen(0, 0, 1920, 1080)));
    let (position, size) = icon(1728, 0);
    assert_eq!(
        place_window_near_tray(&window, position, size, Platform::MacOs),
        placed(1560, 0, TrayEdge::Top)
    );
    let (position, size) = icon(1729, 0);
    assert_eq!(
        place_window_near_tray(&window, position, size, Platform::MacOs),
        placed(1552, 0, TrayEdge::Top)
    );
}

#[test]
fn popup_is_pushed_in_from_the_left_edge_with_a_margin() {
    let window = popup(360, 572, Some(screen(0, 0, 1920, 1080)));
    let (position, size) = icon(100, 0);
    assert_eq!(
        place_window_near_tray(&window, position, size, Platform::MacOs),
        placed(8, 0, TrayEdge::Top)
    );
}

#[test]
fn popup_at_the_left_edge_stays() {
    let window = popup(360, 572, Some(screen(0, 0, 1920, 1080)));
    let (position, size) = icon(168, 0);
    assert_eq!(
        place_window_near_tray(&window, position, size, Platform::MacOs),
        placed(0, 0, TrayEdge::Top)
    );
    let (position, size) = icon(167, 0);
    assert_eq!(
        place_window_near_tray(&window, position, size, Platform::MacOs),
        placed(8, 0, TrayEdge::Top)
    );
}

#[test]
fn popup_is_pulled_up_from_the_bottom_edge_without_a_margin() {
    let window = popup(360, 572, Some(screen(0, 0, 1920, 1080)));
    let (position, size) = icon(1500, 539);
    assert_eq!(
        place_window_near_tray(&window, position, size, Platform::MacOs),
        placed(1332, 508, TrayEdge::Top)
    );
}

#[test]
fn popup_is_pushed_down_to_the_top_edge_without_a_margin() {
    let window = popup(360, 572, Some(screen(0, 0, 1920, 1080)));
    let (position, size) = icon(1500, 560);
    assert_eq!(
        place_window_near_tray(&window, position, size, Platform::Other),
        placed(1332, 0, TrayEdge::Bottom)
    );
}

#[test]
fn a_monitor_away_from_the_origin_bounds_the_popup() {
    let window = popup(360, 572, Some(screen(1920, -200, 1280, 1024)));
    let (position, size) = icon(3100, -200);
    assert_eq!(
        place_window_near_tray(&window, position, size, Platform::MacOs),
        placed(2832, -200, TrayEdge::Top)
    );
    let (position, size) = icon(1930, -200);
    assert_eq!(
        place_window_near_tray(&window, position, size, Platform::MacOs),
        placed(1928, -200, TrayEdge::Top)
    );
}

#[test]
fn a_popup_wider_than_the_monitor_starts_one_margin_inside() {
    let window = popup(2000, 572, Some(screen(0, 0, 1920, 1080)));
    let position = Position { x: 960, y: 0 };
    let size = Size { width: 0, height: 0 };
    assert_eq!(
        place_window_near_tray(&window, position, size, Platform::MacOs),
        placed(8, 0, TrayEdge::Top)
    );
}

#[test]
fn a_popup_taller_than_the_monitor_starts_at_its_top() {
    let window = popup(360, 1200, Some(screen(0, 0, 1920, 1080)));
    let (position, size) = icon(1500, 1040);
    assert_eq!(
        place_window_near_tray(&window, position, size, Platform::Other),
        placed(1332, 0, TrayEdge::Bottom)
    );
}

#[test]
fn unknown_size_counts_as_the_default_size() {
    let window = WindowGeometry { outer_size: None, monitor: None };
    let (position, size) = icon(501, 900);
    assert_eq!(
        place_window_near_tray(&window, position, size, Platform::Other),
        placed(333, 328, TrayEdge::Bottom)
    );
    let known = popup(360, 572, None);
    assert_eq!(
        place_window_near_tray(&known, position, size, Platform::Other),
        place_window_near_tray(&window, position, size, Platform::Other)
    );
}

#[test]
fn without_a_monitor_the_platform_decides_the_edge() {
    let window = WindowGeometry { outer_size: None, monitor: None };
    let (position, size) = icon(501, 900);
    assert_eq!(
        place_window_near_tray(&window, position, size, Platform::MacOs),
        placed(333, 900, TrayEdge::Top)
    );
    assert_eq!(
        place_window_near_tray(&window, position, size, Platform::Other),
        placed(333, 328, TrayEdge::Bottom)
    );
}

#[test]
fn without_a_monitor_nothing_is_pulled_back() {
    let window = popup(360, 572, None);
    let (position, size) = icon(-5000, 100);
    assert_eq!(
        place_window_near_tray(&window, position, size, Platform::Other),
        placed(-5168, -472, TrayEdge::Bottom)
    );
}

#[test]
fn a_half_pixel_is_rounded_away_from_zero() {
    let window = popup(361, 572, None);
    let nothing = Size { width: 0, height: 0 };
    assert_eq!(
        place_window_near_tray(&window, Position { x: 200, y: 0 }, nothing, Platform::MacOs),
        placed(20, 0, TrayEdge::Top)
    );
    assert_eq!(
        place_window_near_tray(&window, Position { x: 0, y: 0 }, nothing, Platform::MacOs),
        placed(-181, 0, TrayEdge::Top)
    );
    assert_eq!(
        place_window_near_tray(&window, Position { x: 180, y: 0 }, nothing, Platform::MacOs),
        placed(-1, 0, TrayEdge::Top)
    );
    assert_eq!(
        place_window_near_tray(&window, Position { x: 181, y: 0 }, nothing, Platform::MacOs),
        placed(1, 0, TrayEdge::Top)
    );
}

#[test]
fn the_popup_is_centred_on_the_icon() {
    let window = popup(360, 572, None);
    for x in -50..50 {
        for width in 0..6u32 {
            let position = Position { x, y: 0 };
            let size = Size { width, height: 24 };
            let at = place_window_near_tray(&window, position, size, Platform::MacOs)
                .expect("a placement without a monitor");
            let off = (2 * i64::from(at.position.x) + 360) - (2 * i64::from(x) + i64::from(width));
            assert!((-1..=1).contains(&off));
        }
    }
}

#[test]
fn a_popup_that_fits_ends_up_on_the_monitor() {
    let monitor = screen(-300, 40, 1280, 800);
    let window = popup(360, 572, Some(monitor));
    for x in (-2000..3000).step_by(37) {
        for y in (-1000..2000).step_by(53) {
            for platform in [Platform::MacOs, Platform::Other] {
                let (position, size) = icon(x, y);
                let at = place_window_near_tray(&window, position, size, platform)
                    .expect("a placement on an ordinary monitor");
                assert!(at.position.x >= -300);
                assert!(at.position.x + 360 <= -300 + 1280);
                assert!(at.position.y >= 40);
                assert!(at.position.y + 572 <= 40 + 800);
            }
        }
    }
}

#[test]
fn placing_at_the_placed_spot_changes_nothing() {
    let monitor = screen(0, 0, 1920, 1080);
    let window = popup(360, 572, Some(monitor));
    for x in (-500..2500).step_by(41) {
        let (position, size) = icon(x, 0);
        let first = place_window_near_tray(&window, position, size, Platform::MacOs)
            .expect("a placement on an ordinary monitor");
        let again = place_window_near_tray(
            &window,
            Position { x: first.position.x + 180, y: first.position.y },
            Size { width: 0, height: 0 },
            Platform::MacOs,
        );
        assert_eq!(again, Some(first));
    }
}

#[test]
fn extents_are_read_as_signed_numbers() {
    let window = popup(u32::MAX, u32::MAX, None);
    let nothing = Size { width: 0, height: 0 };
    assert_eq!(
        place_window_near_tray(&window, Position { x: 0, y: 10 }, nothing, Platform::Other),
        placed(1, 11, TrayEdge::Bottom)
    );
    let window = popup(0x8000_0000, 572, None);
    assert_eq!(
        place_window_near_tray(&window, Position { x: 0, y: 10 }, nothing, Platform::MacOs),
        placed(0x4000_0000, 10, TrayEdge::Top)
    );
}

#[test]
fn the_tray_width_counts_with_its_full_value() {
    let window = popup(360, 572, None);
    let wide = Size { width: u32::MAX, height: 0 };
    assert_eq!(
        place_window_near_tray(&window, Position { x: -2_000_000_000, y: 5 }, wide, Platform::MacOs),
        placed(147_483_468, 5, TrayEdge::Top)
    );
}

#[test]
fn coordinates_stop_at_the_ends_of_the_range() {
    let window = WindowGeometry { outer_size: None, monitor: None };
    let wide = Size { width: u32::MAX, height: 0 };
    assert_eq!(
        place_window_near_tray(&window, Position { x: i32::MAX, y: 5 }, wide, Platform::MacOs),
        placed(i32::MAX, 5, TrayEdge::Top)
    );
    let nothing = Size { width: 0, height: 0 };
    assert_eq!(
        place_window_near_tray(&window, Position { x: 0, y: i32::MIN }, nothing, Platform::Other),
        placed(-180, i32::MIN, TrayEdge::Bottom)
    );
    assert_eq!(
        place_window_near_tray(&window, Position { x: i32::MIN, y: 0 }, nothing, Platform::MacOs),
        placed(i32::MIN, 0, TrayEdge::Top)
    );
}

#[test]
fn no_placement_when_the_origin_leaves_the_range() {
    let window = popup(360, 572, Some(screen(i32::MAX - 3, 0, 100, 1080)));
    let (position, size) = icon(0, 0);
    assert_eq!(place_window_near_tray(&window, position, size, Platform::MacOs), None);
}

#[test]
fn a_monitor_that_leaves_room_for_the_margin_always_gives_a_placement() {
    let window = popup(360, 572, Some(screen(i32::MAX - 8, i32::MAX, u32::MAX, u32::MAX)));
    let (position, size) = icon(0, 0);
    assert_eq!(
        place_window_near_tray(&window, position, size, Platform::MacOs),
        placed(i32::MAX, i32::MAX, TrayEdge::Top)
    );
}
