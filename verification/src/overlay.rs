//! The floating overlay that shows the quotas.

use crate::geometry::{fits, max_of, Point};
use crate::json::{natural_at, natural_field, parse, parsed, print, printed, tree, Json};
use crate::tray::WindowAction;
use crate::window::{WindowSpec, WindowView};
use vstd::prelude::*;

verus! {

/// The width of the overlay.
pub const EXPANDED_W: u32 = 340;

/// The height of the overlay.
pub const EXPANDED_H: u32 = 250;

/// How the overlay is made: a bare, see-through window above others that shows nothing yet.
pub open spec fn overlay_window(on_macos: bool) -> WindowView {
    WindowView {
        label: "overlay"@,
        page: "overlay.html"@,
        title: "Code Plan 套餐余量监控"@,
        width: EXPANDED_W as int,
        height: EXPANDED_H as int,
        centered: false,
        resizable: false,
        maximizable: false,
        minimizable: false,
        decorations: false,
        transparent: true,
        shadow: on_macos,
        always_on_top: true,
        skip_taskbar: on_macos,
        visible: false,
    }
}

/// The overlay. It is hidden until the first data comes. On macOS it keeps out of the
/// taskbar; elsewhere it stays listed, so that it is not put aside, and has no shadow, so that
/// it has no border.
pub fn create_overlay(on_macos: bool) -> (r: WindowSpec)
    ensures
        r@ == overlay_window(on_macos),
        r.label@ == "overlay"@,
        r.page@ == "overlay.html"@,
        r.title@ == "Code Plan 套餐余量监控"@,
        r.width == EXPANDED_W,
        r.height == EXPANDED_H,
        !r.centered,
        !r.resizable,
        !r.maximizable,
        !r.minimizable,
        !r.decorations,
        r.transparent,
        r.shadow == on_macos,
        r.always_on_top,
        r.skip_taskbar == on_macos,
        !r.visible,
{
    WindowSpec {
        label: "overlay",
        page: "overlay.html",
        title: "Code Plan 套餐余量监控",
        width: EXPANDED_W,
        height: EXPANDED_H,
        centered: false,
        resizable: false,
        maximizable: false,
        minimizable: false,
        decorations: false,
        transparent: true,
        shadow: on_macos,
        always_on_top: true,
        skip_taskbar: on_macos,
        visible: false,
    }
}

/// The place and the extent of a monitor, in physical pixels.
#[derive(Debug, Clone, Copy, PartialEq, Eq, Structural)]
pub struct Monitor {
    pub x: i32,
    pub y: i32,
    pub width: u32,
    pub height: u32,
}

/// An extent as a screen coordinate: one that is too large wraps around.
pub open spec fn wrapped(n: u32) -> int {
    if n <= i32::MAX {
        n as int
    } else {
        n - 0x1_0000_0000
    }
}

/// An extent as a screen coordinate.
fn wrap(n: u32) -> (r: i32)
    ensures
        r == wrapped(n),
{
    if n <= 0x7FFF_FFFF {
        n as i32
    } else {
        -((0xFFFF_FFFF - n) as i32) - 1
    }
}

/// The coordinate that keeps `room` free at the far end of a stretch, but not before its
/// beginning.
pub open spec fn far_end(origin: int, extent: int, room: int) -> int {
    max_of(origin + extent - room, origin)
}

/// Where the overlay shows first: at the lower right of the monitor, 20 away from its edges.
pub open spec fn initial_point(m: Monitor) -> (int, int) {
    (
        far_end(m.x as int, wrapped(m.width), EXPANDED_W + 20),
        far_end(m.y as int, wrapped(m.height), EXPANDED_H + 20),
    )
}

/// Where the overlay shows first.
pub fn initial_position(m: &Monitor) -> (r: Point)
    requires
        fits(m.x + wrapped(m.width)),
        fits(m.x + wrapped(m.width) - EXPANDED_W - 20),
        fits(m.y + wrapped(m.height)),
        fits(m.y + wrapped(m.height) - EXPANDED_H - 20),
    ensures
        (r.x as int, r.y as int) == initial_point(*m),
{
    let x: i32 = m.x + wrap(m.width) - EXPANDED_W as i32 - 20;
    let y: i32 = m.y + wrap(m.height) - EXPANDED_H as i32 - 20;
    Point {
        x: if x < m.x {
            m.x
        } else {
            x
        },
        y: if y < m.y {
            m.y
        } else {
            y
        },
    }
}

/// What shows the overlay first. On Windows it is also put above other windows and listed in
/// the taskbar.
pub fn show_initial(on_windows: bool) -> (r: Vec<WindowAction>)
    ensures
        r@ == if on_windows {
            seq![
                WindowAction::KeepOnTop,
                WindowAction::ListInTaskbar,
                WindowAction::Show,
                WindowAction::Focus,
            ]
        } else {
            seq![WindowAction::Show, WindowAction::Focus]
        },
{
    if on_windows {
        vec![
            WindowAction::KeepOnTop,
            WindowAction::ListInTaskbar,
            WindowAction::Show,
            WindowAction::Focus,
        ]
    } else {
        vec![WindowAction::Show, WindowAction::Focus]
    }
}

/// `i`, moved into the stretch from `low` to `high`.
pub open spec fn clamped(i: int, low: int, high: int) -> int {
    if i < low {
        low
    } else if i > high {
        high
    } else {
        i
    }
}

/// A position of a window of the given size, moved onto the monitor.
pub open spec fn clamped_point(m: Monitor, p: Point, width: u32, height: u32) -> (int, int) {
    (
        clamped(p.x as int, m.x as int, far_end(m.x as int, wrapped(m.width), wrapped(width))),
        clamped(p.y as int, m.y as int, far_end(m.y as int, wrapped(m.height), wrapped(height))),
    )
}

/// Keeps a window on the monitor: where to move it, if it is not on it already.
pub fn clamp_to_monitor(m: &Monitor, p: &Point, width: u32, height: u32) -> (r: Option<Point>)
    requires
        fits(m.x + wrapped(m.width)),
        fits(m.x + wrapped(m.width) - wrapped(width)),
        fits(m.y + wrapped(m.height)),
        fits(m.y + wrapped(m.height) - wrapped(height)),
    ensures
        ({
            let c = clamped_point(*m, *p, width, height);
            if c == (p.x as int, p.y as int) {
                r is None
            } else {
                r is Some && (r->0.x as int, r->0.y as int) == c
            }
        }),
{
    let mut max_x: i32 = m.x + wrap(m.width) - wrap(width);
    if max_x < m.x {
        max_x = m.x;
    }
    let mut max_y: i32 = m.y + wrap(m.height) - wrap(height);
    if max_y < m.y {
        max_y = m.y;
    }
    let cx: i32 = if p.x < m.x {
        m.x
    } else if p.x > max_x {
        max_x
    } else {
        p.x
    };
    let cy: i32 = if p.y < m.y {
        m.y
    } else if p.y > max_y {
        max_y
    } else {
        p.y
    };
    if cx != p.x || cy != p.y {
        Some(Point { x: cx, y: cy })
    } else {
        None
    }
}

/// A window that has been moved onto the monitor is left where it is.
pub proof fn law_clamped_window_rests(m: Monitor, p: Point, q: Point, width: u32, height: u32)
    requires
        (q.x as int, q.y as int) == clamped_point(m, p, width, height),
    ensures
        clamped_point(m, q, width, height) == (q.x as int, q.y as int),
{
}

/// Of a window that is no larger than the monitor, no part is left outside it; the upper left
/// corner of any window is on the monitor.
pub proof fn law_clamped_window_is_on_monitor(m: Monitor, p: Point, width: u32, height: u32)
    requires
        m.width <= i32::MAX,
        m.height <= i32::MAX,
    ensures
        ({
            let c = clamped_point(m, p, width, height);
            &&& m.x <= c.0
            &&& m.y <= c.1
            &&& width <= m.width ==> c.0 + width <= m.x + m.width
            &&& height <= m.height ==> c.1 + height <= m.y + m.height
        }),
{
}

/// Where the overlay shows first, it is on the monitor: it need not be moved onto it.
pub proof fn law_overlay_starts_on_monitor(m: Monitor, p: Point)
    requires
        (p.x as int, p.y as int) == initial_point(m),
    ensures
        clamped_point(m, p, EXPANDED_W, EXPANDED_H) == initial_point(m),
{
}

/// What is remembered of the overlay.
#[derive(Debug, Clone, Copy, PartialEq, Eq, Structural)]
pub struct OverlayState {
    /// Whether it has been shown once.
    pub initialized: bool,
}

/// What new data does to the overlay.
pub struct Push {
    /// The script that hands the data to its page.
    pub script: String,
    /// Whether it is shown for the first time.
    pub show: bool,
}

/// The script that hands data to the page of the overlay.
pub open spec fn data_script(json: Json) -> Seq<char> {
    "window.updateProviderData("@ + printed(json) + ");"@
}

/// What data does to the state of the overlay: it has been shown afterwards, and is shown now
/// if it was not before.
pub open spec fn push_step(s: OverlayState) -> (OverlayState, bool) {
    (OverlayState { initialized: true }, !s.initialized)
}

impl OverlayState {
    /// The overlay has not been shown yet.
    pub fn new() -> (r: Self)
        ensures
            !r.initialized,
    {
        OverlayState { initialized: false }
    }

    /// Hands data to the overlay. The first data also shows it; later data leaves it shown or
    /// hidden as it is.
    pub fn push_provider_data(&mut self, payload: &serde_json::Value) -> (r: Push)
        ensures
            r.script@ == data_script(tree(*payload)),
            (*final(self), r.show) == push_step(*old(self)),
    {
        let script = "window.updateProviderData(".to_string().concat(print(payload).as_str());
        let script = script.concat(");");
        let show: bool = !self.initialized;
        self.initialized = true;
        Push { script, show }
    }
}

/// The size that the page of the overlay asks for: both extents, as natural numbers.
pub open spec fn size_in(json: Json) -> Option<(u64, u64)> {
    match (natural_at(json, "width"@), natural_at(json, "height"@)) {
        (Some(width), Some(height)) => Some((width, height)),
        _ => None,
    }
}

/// The size that the page of the overlay asks for in an event; nothing where the event is not
/// understood.
pub fn adjust_size(payload: &str) -> (r: Option<(u64, u64)>)
    ensures
        r == match parsed(payload@) {
            Some(json) => size_in(json),
            None => None,
        },
{
    match parse(payload) {
        Ok(data) => match (natural_field(&data, "width"), natural_field(&data, "height")) {
            (Some(width), Some(height)) => Some((width, height)),
            _ => None,
        },
        Err(_) => None,
    }
}

/// The script that tells the page of the overlay whether it is kept on top.
pub open spec fn pin_script(pinned: bool) -> Seq<char> {
    "window.updatePinState("@ + (if pinned {
        "true"@
    } else {
        "false"@
    }) + ");"@
}

/// The script that tells the page of the overlay whether it is kept on top, as a text.
pub fn pin_state_script(pinned: bool) -> (r: String)
    ensures
        r@ == pin_script(pinned),
{
    let state = if pinned {
        "true"
    } else {
        "false"
    };
    "window.updatePinState(".to_string().concat(state).concat(");")
}

/// Turns over whether the overlay is kept on top: the new state, and the script that tells
/// the page.
pub fn toggle_pin(pinned: bool) -> (r: (bool, String))
    ensures
        r.0 == !pinned,
        r.1@ == pin_script(!pinned),
{
    (!pinned, pin_state_script(!pinned))
}

/// What is remembered of the overlay after `n` pushes.
pub open spec fn after_pushes(s: OverlayState, n: nat) -> OverlayState
    decreases n,
{
    if n == 0 {
        s
    } else {
        push_step(after_pushes(s, (n - 1) as nat)).0
    }
}

/// How many of `n` pushes show the overlay.
pub open spec fn times_shown(s: OverlayState, n: nat) -> nat
    decreases n,
{
    if n == 0 {
        0
    } else {
        let m = (n - 1) as nat;
        if push_step(after_pushes(s, m)).1 {
            times_shown(s, m) + 1
        } else {
            times_shown(s, m)
        }
    }
}

/// However much data comes, it shows the overlay once, and not at all if it has been shown
/// before.
pub proof fn law_overlay_is_shown_once(s: OverlayState, n: nat)
    ensures
        times_shown(s, n) == if s.initialized || n == 0 {
            0nat
        } else {
            1nat
        },
        after_pushes(s, n).initialized == (s.initialized || n > 0),
    decreases n,
{
    if n > 0 {
        law_overlay_is_shown_once(s, (n - 1) as nat);
    }
}

/// An extent up to 31 bits is taken as it is; a larger one is off by 2 to the 32.
pub proof fn law_extents_wrap(n: u32)
    ensures
        n < 0x8000_0000 ==> wrapped(n) == n,
        n >= 0x8000_0000 ==> wrapped(n) + 0x1_0000_0000 == n,
{
}

/// On a monitor with room for it, the overlay starts 20 away from the right and the lower edge.
/// Where there is less room it starts at the left or the upper edge.
pub proof fn law_overlay_starts_at_the_lower_right(m: Monitor)
    requires
        m.width < 0x8000_0000,
        m.height < 0x8000_0000,
    ensures
        ({
            let (x, y) = initial_point(m);
            &&& m.width >= 360 ==> (m.x + m.width) - (x + 340) == 20
            &&& m.width < 360 ==> x == m.x
            &&& m.height >= 270 ==> (m.y + m.height) - (y + 250) == 20
            &&& m.height < 270 ==> y == m.y
        }),
{
}

/// A window that lies on the monitor is left where it is. Any other is moved no farther than
/// needed: to the nearest place where it lies on the monitor.
pub proof fn law_window_is_moved_to_the_nearest_place(
    m: Monitor,
    p: Point,
    width: u32,
    height: u32,
    x: int,
    y: int,
)
    requires
        m.width < 0x8000_0000,
        m.height < 0x8000_0000,
        width <= m.width,
        height <= m.height,
        m.x <= x <= m.x + m.width - width,
        m.y <= y <= m.y + m.height - height,
    ensures
        ({
            let c = clamped_point(m, p, width, height);
            &&& p.x == x ==> c.0 == x
            &&& p.y == y ==> c.1 == y
            &&& p.x <= x ==> p.x <= c.0 <= x
            &&& p.x >= x ==> x <= c.0 <= p.x
            &&& p.y <= y ==> p.y <= c.1 <= y
            &&& p.y >= y ==> y <= c.1 <= p.y
        }),
{
}

/// A window that is larger than the monitor is moved to its left or its upper edge.
pub proof fn law_large_window_is_moved_to_the_edge(
    m: Monitor,
    p: Point,
    width: u32,
    height: u32,
)
    requires
        width < 0x8000_0000,
        height < 0x8000_0000,
    ensures
        m.width <= width ==> clamped_point(m, p, width, height).0 == m.x,
        m.height <= height ==> clamped_point(m, p, width, height).1 == m.y,
{
}

/// Between its fixed beginning and its fixed end, the script for the overlay holds the printed
/// data, all of it.
pub proof fn law_script_holds_the_data(json: Json)
    ensures
        ({
            let s = data_script(json);
            let (a, b) = ("window.updateProviderData("@, ");"@);
            &&& s.len() == a.len() + printed(json).len() + b.len()
            &&& s.take(a.len() as int) == a
            &&& s.subrange(a.len() as int, s.len() - b.len()) == printed(json)
            &&& s.skip(s.len() - b.len()) == b
        }),
{
    let s = data_script(json);
    let (a, b) = ("window.updateProviderData("@, ");"@);
    assert(s.take(a.len() as int) =~= a);
    assert(s.subrange(a.len() as int, s.len() - b.len()) =~= printed(json));
    assert(s.skip(s.len() - b.len()) =~= b);
}

/// Data shows the overlay exactly where it has not been shown yet, and it has been afterwards.
pub proof fn law_first_data_shows_the_overlay(s: OverlayState)
    ensures
        push_step(s).1 <==> !s.initialized,
        push_step(s).0.initialized,
{
}

/// The script on the pin says the state that it is given.
pub proof fn law_pin_script_says_the_state(pinned: bool)
    ensures
        pin_script(pinned) == if pinned {
            "window.updatePinState(true);"@
        } else {
            "window.updatePinState(false);"@
        },
{
    reveal_strlit("window.updatePinState(");
    reveal_strlit("true");
    reveal_strlit("false");
    reveal_strlit(");");
    reveal_strlit("window.updatePinState(true);");
    reveal_strlit("window.updatePinState(false);");
    if pinned {
        assert(pin_script(pinned) =~= "window.updatePinState(true);"@);
    } else {
        assert(pin_script(pinned) =~= "window.updatePinState(false);"@);
    }
}

/// A size is asked for exactly where both extents stand as natural numbers under their keys.
pub proof fn law_size_is_read(m: Map<Seq<char>, Json>, width: u64, height: u64)
    ensures
        size_in(Json::Object(m)) == Some((width, height)) <==> {
            &&& m.dom().contains("width"@) && m["width"@] == Json::Natural(width)
            &&& m.dom().contains("height"@) && m["height"@] == Json::Natural(height)
        },
{
}

/// The overlay stays above others, has no frame and cannot be resized, and is hidden at first;
/// what differs on macOS is its shadow and its place in the taskbar.
pub proof fn law_overlay_is_bare(on_macos: bool)
    ensures
        ({
            let w = overlay_window(on_macos);
            &&& w.width == 340 && w.height == 250
            &&& w.always_on_top && w.transparent && !w.visible && !w.centered
            &&& !w.decorations && !w.resizable && !w.maximizable && !w.minimizable
            &&& w.shadow <==> on_macos
            &&& w.skip_taskbar <==> on_macos
            &&& w == (WindowView {
                shadow: w.shadow,
                skip_taskbar: w.skip_taskbar,
                ..overlay_window(!on_macos)
            })
        }),
{
}

} // verus!
