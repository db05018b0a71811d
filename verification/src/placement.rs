//! Where the popup window goes when the tray icon is clicked.
//!
//! All coordinates are physical pixels of the virtual desktop, `x` growing to
//! the right and `y` growing downwards. Positions are signed 32-bit values and
//! extents are unsigned 32-bit values, as the window system reports them.

use vstd::prelude::*;
use crate::platform::Platform;

verus! {

/// Width assumed for the popup when its size cannot be queried.
pub const DEFAULT_WIDTH: i32 = 360;

/// Height assumed for the popup when its size cannot be queried.
pub const DEFAULT_HEIGHT: i32 = 572;

/// Horizontal gap kept to a monitor edge when the popup is pulled back inside.
pub const MARGIN: i32 = 8;

/// A point of the virtual desktop.
#[derive(Clone, Copy, Debug, PartialEq, Eq, Structural)]
pub struct Position {
    pub x: i32,
    pub y: i32,
}

/// The extent of a window, an icon or a monitor.
#[derive(Clone, Copy, Debug, PartialEq, Eq, Structural)]
pub struct Size {
    pub width: u32,
    pub height: u32,
}

/// The bounds of a monitor: its top-left corner and its extent.
#[derive(Clone, Copy, Debug, PartialEq, Eq, Structural)]
pub struct Monitor {
    pub position: Position,
    pub size: Size,
}

/// What the placement reads from the popup window.
#[derive(Clone, Copy, Debug, PartialEq, Eq, Structural)]
pub struct WindowGeometry {
    /// The window's outer size, `None` when the window system did not tell.
    pub outer_size: Option<Size>,
    /// The monitor the window is on, `None` when there is none or it is unknown.
    pub monitor: Option<Monitor>,
}

/// The screen edge that the tray sits at. The popup's arrow points to it.
#[derive(Clone, Copy, Debug, PartialEq, Eq, Structural)]
pub enum TrayEdge {
    /// The tray is in a bar at the top; the popup hangs below it.
    Top,
    /// The tray is in a bar at the bottom; the popup stands above it.
    Bottom,
}

impl TrayEdge {
    /// The edge's name as the page in the popup knows it.
    pub open spec fn text(self) -> Seq<char> {
        match self {
            TrayEdge::Top => "top"@,
            TrayEdge::Bottom => "bottom"@,
        }
    }

    /// The edge's name as the page in the popup knows it.
    pub fn name(&self) -> (name: &'static str)
        ensures
            name@ == self.text(),
    {
        match self {
            TrayEdge::Top => "top",
            TrayEdge::Bottom => "bottom",
        }
    }
}

/// The outcome of a placement: the popup's new origin and the tray's edge.
#[derive(Clone, Copy, Debug, PartialEq, Eq, Structural)]
pub struct Placement {
    pub position: Position,
    pub edge: TrayEdge,
}

/// An extent as it is added to or taken from a coordinate: the 32 bits of `v`
/// read as a two's complement number. Extents below 2^31 keep their value.
/// The popup's and the monitor's extents enter the placement this way.
pub open spec fn signed(v: u32) -> int {
    if v <= i32::MAX {
        v as int
    } else {
        v - 0x1_0000_0000
    }
}

/// The signed 32-bit value nearest to `v`.
pub open spec fn saturated(v: int) -> int {
    if v < i32::MIN {
        i32::MIN as int
    } else if v > i32::MAX {
        i32::MAX as int
    } else {
        v
    }
}

/// Half of `n`, rounded to the nearest integer; a tie goes away from zero.
pub open spec fn half_rounded(n: int) -> int {
    if n >= 0 {
        (n + 1) / 2
    } else {
        -((1 - n) / 2)
    }
}

/// Whether `v` is a signed 32-bit value.
pub open spec fn representable(v: int) -> bool {
    i32::MIN <= v <= i32::MAX
}

/// The popup's width in coordinate arithmetic.
pub open spec fn popup_width(window: WindowGeometry) -> int {
    match window.outer_size {
        Some(size) => signed(size.width),
        None => DEFAULT_WIDTH as int,
    }
}

/// The popup's height in coordinate arithmetic.
pub open spec fn popup_height(window: WindowGeometry) -> int {
    match window.outer_size {
        Some(size) => signed(size.height),
        None => DEFAULT_HEIGHT as int,
    }
}

/// Where a platform keeps its tray when no monitor tells: macOS at the top,
/// every other system at the bottom.
pub open spec fn usual_edge(platform: Platform) -> TrayEdge {
    match platform {
        Platform::MacOs => TrayEdge::Top,
        Platform::Other => TrayEdge::Bottom,
    }
}

/// The edge the tray is taken to sit at: the top when the icon's `y` lies
/// strictly above half the monitor's height, the bottom otherwise, and the
/// platform's usual edge when no monitor is known. The height counts with its
/// full unsigned value, and the monitor's own position plays no part.
pub open spec fn tray_edge(window: WindowGeometry, tray_position: Position, platform: Platform) -> TrayEdge {
    match window.monitor {
        Some(monitor) => if 2 * tray_position.y < monitor.size.height {
            TrayEdge::Top
        } else {
            TrayEdge::Bottom
        },
        None => usual_edge(platform),
    }
}

/// The `x` that centres the popup on the tray icon, before any monitor is
/// taken into account: the icon's middle less half the popup's width, rounded
/// to a whole pixel and kept within the signed 32-bit range. The icon's width
/// counts with its full unsigned value.
pub open spec fn anchor_x(window: WindowGeometry, tray_position: Position, tray_size: Size) -> int {
    saturated(half_rounded(2 * tray_position.x + tray_size.width - popup_width(window)))
}

/// The `y` that puts the popup next to the tray icon: its top edge at the
/// icon's `y` when it hangs below, its bottom edge there when it stands
/// above, kept within the signed 32-bit range.
pub open spec fn anchor_y(window: WindowGeometry, tray_position: Position, edge: TrayEdge) -> int {
    match edge {
        TrayEdge::Top => tray_position.y as int,
        TrayEdge::Bottom => saturated(tray_position.y - popup_height(window)),
    }
}

/// `x` moved so that a span of `width` starting there lies on the monitor:
/// a span that passes the right edge is pulled back to end `MARGIN` before
/// it, and one that then starts left of the monitor starts `MARGIN` inside.
pub open spec fn fit_x(x: int, width: int, monitor: Monitor) -> int {
    let left = monitor.position.x as int;
    let right = left + signed(monitor.size.width);
    let pulled = if x + width > right {
        right - width - MARGIN
    } else {
        x
    };
    if pulled < left {
        left + MARGIN
    } else {
        pulled
    }
}

/// `y` moved so that a span of `height` starting there lies on the monitor:
/// a span that passes the bottom edge is pulled back to end at it, and one
/// that then starts above the monitor starts at its top edge.
pub open spec fn fit_y(y: int, height: int, monitor: Monitor) -> int {
    let top = monitor.position.y as int;
    let bottom = top + signed(monitor.size.height);
    let pulled = if y + height > bottom {
        bottom - height
    } else {
        y
    };
    if pulled < top {
        top
    } else {
        pulled
    }
}

/// The popup's final `x`.
pub open spec fn placed_x(window: WindowGeometry, tray_position: Position, tray_size: Size) -> int {
    let x = anchor_x(window, tray_position, tray_size);
    match window.monitor {
        Some(monitor) => fit_x(x, popup_width(window), monitor),
        None => x,
    }
}

/// The popup's final `y`.
pub open spec fn placed_y(window: WindowGeometry, tray_position: Position, platform: Platform) -> int {
    let y = anchor_y(window, tray_position, tray_edge(window, tray_position, platform));
    match window.monitor {
        Some(monitor) => fit_y(y, popup_height(window), monitor),
        None => y,
    }
}

fn signed_extent(v: u32) -> (r: i64)
    ensures
        r == signed(v),
{
    if v <= 0x7fff_ffff {
        v as i64
    } else {
        v as i64 - 0x1_0000_0000
    }
}

fn saturate(v: i64) -> (r: i64)
    ensures
        r == saturated(v as int),
{
    if v < -0x8000_0000 {
        -0x8000_0000
    } else if v > 0x7fff_ffff {
        0x7fff_ffff
    } else {
        v
    }
}

fn halve(n: i64) -> (r: i64)
    requires
        -0x4000_0000_0000_0000 <= n <= 0x4000_0000_0000_0000,
    ensures
        r == half_rounded(n as int),
{
    if n >= 0 {
        (n + 1) / 2
    } else {
        -((1 - n) / 2)
    }
}

fn fit_span_x(x: i64, width: i64, monitor: &Monitor) -> (r: i64)
    requires
        representable(x as int),
        representable(width as int),
    ensures
        r == fit_x(x as int, width as int, *monitor),
{
    let left: i64 = monitor.position.x as i64;
    let right: i64 = left + signed_extent(monitor.size.width);
    let pulled: i64 = if x + width > right {
        right - width - MARGIN as i64
    } else {
        x
    };
    if pulled < left {
        left + MARGIN as i64
    } else {
        pulled
    }
}

fn fit_span_y(y: i64, height: i64, monitor: &Monitor) -> (r: i64)
    requires
        representable(y as int),
        representable(height as int),
    ensures
        r == fit_y(y as int, height as int, *monitor),
{
    let top: i64 = monitor.position.y as i64;
    let bottom: i64 = top + signed_extent(monitor.size.height);
    let pulled: i64 = if y + height > bottom {
        bottom - height
    } else {
        y
    };
    if pulled < top {
        top
    } else {
        pulled
    }
}

/// Places the popup next to the tray icon.
///
/// The popup is centred horizontally on the icon and put directly below it
/// when the tray is at the top of the screen, directly above it when the tray
/// is at the bottom. On a known monitor the result is then pulled back inside
/// the monitor's bounds. A popup whose size is unknown counts as
/// `DEFAULT_WIDTH` by `DEFAULT_HEIGHT`.
///
/// Every step is computed exactly. The result is `None` precisely when the
/// origin found is not a pair of signed 32-bit coordinates, which can only
/// happen on a monitor whose left edge lies within `MARGIN` of the largest
/// coordinate.
pub fn place_window_near_tray(
    window: &WindowGeometry,
    tray_position: Position,
    tray_size: Size,
    platform: Platform,
) -> (r: Option<Placement>)
    ensures
        r is Some <==> representable(placed_x(*window, tray_position, tray_size))
            && representable(placed_y(*window, tray_position, platform)),
        r matches Some(p) ==> p.position.x == placed_x(*window, tray_position, tray_size)
            && p.position.y == placed_y(*window, tray_position, platform)
            && p.edge == tray_edge(*window, tray_position, platform),
        window.monitor is None ==> r is Some,
        window.monitor matches Some(monitor) ==> monitor.position.x + MARGIN <= i32::MAX ==> r is Some,
{
    proof {
        lemma_placement_exists(*window, tray_position, tray_size, platform);
    }
    let (width, height): (i64, i64) = match window.outer_size {
        Some(size) => (signed_extent(size.width), signed_extent(size.height)),
        None => (DEFAULT_WIDTH as i64, DEFAULT_HEIGHT as i64),
    };
    let mut x: i64 = saturate(halve(2 * (tray_position.x as i64) + tray_size.width as i64 - width));
    let edge = match window.monitor {
        Some(monitor) => if 2 * (tray_position.y as i64) < monitor.size.height as i64 {
            TrayEdge::Top
        } else {
            TrayEdge::Bottom
        },
        None => match platform {
            Platform::MacOs => TrayEdge::Top,
            Platform::Other => TrayEdge::Bottom,
        },
    };
    let mut y: i64 = match edge {
        TrayEdge::Top => tray_position.y as i64,
        TrayEdge::Bottom => saturate(tray_position.y as i64 - height),
    };
    if let Some(monitor) = window.monitor {
        x = fit_span_x(x, width, &monitor);
        y = fit_span_y(y, height, &monitor);
    }
    if -0x8000_0000 <= x && x <= 0x7fff_ffff && -0x8000_0000 <= y && y <= 0x7fff_ffff {
        Some(Placement { position: Position { x: x as i32, y: y as i32 }, edge })
    } else {
        None
    }
}

/// Halving with rounding lands within half a unit of the exact half, on the
/// far side from zero when there is a tie, and mirrors under negation.
pub proof fn lemma_half_rounded_nearest(n: int)
    ensures
        -1 <= 2 * half_rounded(n) - n <= 1,
        n >= 0 ==> 2 * half_rounded(n) >= n,
        n <= 0 ==> 2 * half_rounded(n) <= n,
        half_rounded(-n) == -half_rounded(n),
{
}

/// As long as the centring `x` is a signed 32-bit value, the popup's middle
/// lies within half a pixel of the tray icon's middle.
pub proof fn lemma_anchor_centred(window: WindowGeometry, tray_position: Position, tray_size: Size)
    requires
        representable(half_rounded(2 * tray_position.x + tray_size.width - popup_width(window))),
    ensures
        -1 <= (2 * anchor_x(window, tray_position, tray_size) + popup_width(window)) - (2
            * tray_position.x + tray_size.width) <= 1,
{
    lemma_half_rounded_nearest(2 * tray_position.x + tray_size.width - popup_width(window));
}

/// A popup below the tray has its top edge at the icon's `y`, and a popup
/// above the tray has its bottom edge there as long as its top is a signed
/// 32-bit value.
pub proof fn lemma_anchor_adjacent(window: WindowGeometry, tray_position: Position, edge: TrayEdge)
    ensures
        edge == TrayEdge::Top ==> anchor_y(window, tray_position, edge) == tray_position.y,
        edge == TrayEdge::Bottom && representable(tray_position.y - popup_height(window))
            ==> anchor_y(window, tray_position, edge) + popup_height(window) == tray_position.y,
{
}

/// A popup that fits on the monitor ends up wholly inside it: horizontally
/// when its width and one margin find room, vertically when its height does.
pub proof fn lemma_fit_within_monitor(x: int, y: int, width: int, height: int, monitor: Monitor)
    ensures
        0 <= width && width + MARGIN <= signed(monitor.size.width) ==> monitor.position.x <= fit_x(
            x,
            width,
            monitor,
        ) && fit_x(x, width, monitor) + width <= monitor.position.x + signed(monitor.size.width),
        0 <= height <= signed(monitor.size.height) ==> monitor.position.y <= fit_y(y, height, monitor)
            && fit_y(y, height, monitor) + height <= monitor.position.y + signed(
            monitor.size.height,
        ),
{
}

/// A span that already lies on the monitor is left where it is.
pub proof fn lemma_fit_keeps_inside(x: int, y: int, width: int, height: int, monitor: Monitor)
    ensures
        monitor.position.x <= x && x + width <= monitor.position.x + signed(monitor.size.width)
            ==> fit_x(x, width, monitor) == x,
        monitor.position.y <= y && y + height <= monitor.position.y + signed(monitor.size.height)
            ==> fit_y(y, height, monitor) == y,
{
}

/// A popup that lies on its monitor where the tray icon puts it is placed
/// exactly there.
pub proof fn lemma_placed_at_anchor(
    window: WindowGeometry,
    tray_position: Position,
    tray_size: Size,
    platform: Platform,
)
    requires
        window.monitor matches Some(monitor) ==> {
            let x = anchor_x(window, tray_position, tray_size);
            let y = anchor_y(window, tray_position, tray_edge(window, tray_position, platform));
            &&& monitor.position.x <= x
            &&& x + popup_width(window) <= monitor.position.x + signed(monitor.size.width)
            &&& monitor.position.y <= y
            &&& y + popup_height(window) <= monitor.position.y + signed(monitor.size.height)
        },
    ensures
        placed_x(window, tray_position, tray_size) == anchor_x(window, tray_position, tray_size),
        placed_y(window, tray_position, platform) == anchor_y(
            window,
            tray_position,
            tray_edge(window, tray_position, platform),
        ),
{
}

/// Fitting a fitted span again changes nothing.
pub proof fn lemma_fit_idempotent(x: int, y: int, width: int, height: int, monitor: Monitor)
    ensures
        fit_x(fit_x(x, width, monitor), width, monitor) == fit_x(x, width, monitor),
        fit_y(fit_y(y, height, monitor), height, monitor) == fit_y(y, height, monitor),
{
}

/// On a known monitor that has room for the popup, the placed popup lies
/// wholly on that monitor.
pub proof fn lemma_placed_on_monitor(
    window: WindowGeometry,
    tray_position: Position,
    tray_size: Size,
    platform: Platform,
)
    requires
        window.monitor is Some,
        0 <= popup_width(window),
        popup_width(window) + MARGIN <= signed(window.monitor->0.size.width),
        0 <= popup_height(window) <= signed(window.monitor->0.size.height),
    ensures
        ({
            let monitor = window.monitor->0;
            let x = placed_x(window, tray_position, tray_size);
            let y = placed_y(window, tray_position, platform);
            &&& monitor.position.x <= x
            &&& x + popup_width(window) <= monitor.position.x + signed(monitor.size.width)
            &&& monitor.position.y <= y
            &&& y + popup_height(window) <= monitor.position.y + signed(monitor.size.height)
        }),
{
    let monitor = window.monitor->0;
    lemma_fit_within_monitor(
        anchor_x(window, tray_position, tray_size),
        anchor_y(window, tray_position, tray_edge(window, tray_position, platform)),
        popup_width(window),
        popup_height(window),
        monitor,
    );
}

/// The two edges go by different names.
pub proof fn lemma_edge_names_differ()
    ensures
        TrayEdge::Top.text() != TrayEdge::Bottom.text(),
{
    reveal_strlit("top");
    reveal_strlit("bottom");
    assert("top"@.len() == 3);
    assert("bottom"@.len() == 6);
}

/// The placed `y` is always a signed 32-bit value, and so is the placed `x`
/// unless a monitor starts less than one margin before the largest
/// coordinate. So a placement exists whenever no monitor is known or the
/// monitor's left edge leaves that room.
pub proof fn lemma_placement_exists(
    window: WindowGeometry,
    tray_position: Position,
    tray_size: Size,
    platform: Platform,
)
    ensures
        representable(placed_y(window, tray_position, platform)),
        window.monitor matches Some(monitor) ==> monitor.position.x + MARGIN <= i32::MAX
            ==> representable(placed_x(window, tray_position, tray_size)),
        window.monitor is None ==> representable(placed_x(window, tray_position, tray_size)),
{
}

} // verus!
