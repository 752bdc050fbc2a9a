//! Placement of the widget window on a monitor.

use vstd::prelude::*;

use crate::domain::WindowSettings;
use crate::text::str_eq;

verus! {

/// The number of pixels of the widget that must stay on the monitor.
pub const MIN_VISIBLE: i32 = 24;

/// `value.clamp(low, high)`.
pub open spec fn clamp_spec(value: int, low: int, high: int) -> int {
    if value < low {
        low
    } else if value > high {
        high
    } else {
        value
    }
}

/// The lowest and highest coordinate along one axis that keep at least
/// `MIN_VISIBLE` pixels of a window of length `length` on a monitor that
/// starts at `start` and has length `extent`.
pub open spec fn axis_low(start: int, length: int) -> int {
    start - length + MIN_VISIBLE
}

pub open spec fn axis_high(start: int, extent: int) -> int {
    start + extent - MIN_VISIBLE
}

/// Whether the bounds along one axis are representable and non-empty.
pub open spec fn axis_ok(start: int, length: int, extent: int) -> bool {
    &&& i32::MIN <= start - length <= i32::MAX
    &&& i32::MIN <= start + extent <= i32::MAX
    &&& i32::MIN <= axis_low(start, length) <= i32::MAX
    &&& i32::MIN <= axis_high(start, extent) <= i32::MAX
    &&& axis_low(start, length) <= axis_high(start, extent)
}

/// The clamped coordinate along one axis.
pub open spec fn clamp_axis(value: int, start: int, length: int, extent: int) -> int {
    clamp_spec(value, axis_low(start, length), axis_high(start, extent))
}

fn clamp_i32(value: i32, low: i32, high: i32) -> (r: i32)
    requires
        low <= high,
    ensures
        r == clamp_spec(value as int, low as int, high as int),
{
    if value < low {
        low
    } else if value > high {
        high
    } else {
        value
    }
}

/// Moves a window position so that at least `MIN_VISIBLE` pixels of the
/// window remain on the monitor. `monitor_bounds` is (x, y, width, height).
/// The caller guarantees the bounds are representable and that the monitor
/// and window together are at least `2 * MIN_VISIBLE` pixels wide and high,
/// as `i32::clamp` panics otherwise.
pub fn clamp_position(
    position: (i32, i32),
    window_size: (i32, i32),
    monitor_bounds: (i32, i32, i32, i32),
) -> (r: (i32, i32))
    requires
        axis_ok(monitor_bounds.0 as int, window_size.0 as int, monitor_bounds.2 as int),
        axis_ok(monitor_bounds.1 as int, window_size.1 as int, monitor_bounds.3 as int),
    ensures
        r.0 == clamp_axis(
            position.0 as int,
            monitor_bounds.0 as int,
            window_size.0 as int,
            monitor_bounds.2 as int,
        ),
        r.1 == clamp_axis(
            position.1 as int,
            monitor_bounds.1 as int,
            window_size.1 as int,
            monitor_bounds.3 as int,
        ),
{
    let (x, y) = position;
    let (width, height) = window_size;
    let (monitor_x, monitor_y, monitor_width, monitor_height) = monitor_bounds;
    let min_x = monitor_x - width + MIN_VISIBLE;
    let max_x = monitor_x + monitor_width - MIN_VISIBLE;
    let min_y = monitor_y - height + MIN_VISIBLE;
    let max_y = monitor_y + monitor_height - MIN_VISIBLE;
    (clamp_i32(x, min_x, max_x), clamp_i32(y, min_y, max_y))
}

/// Whether a window at `(x, y)` keeps at least `MIN_VISIBLE` pixels on the monitor along both axes.
pub open spec fn keeps_visible(
    x: int,
    y: int,
    window_size: (i32, i32),
    monitor_bounds: (i32, i32, i32, i32),
) -> bool {
    &&& x + window_size.0 - MIN_VISIBLE >= monitor_bounds.0
    &&& x + MIN_VISIBLE <= monitor_bounds.0 + monitor_bounds.2
    &&& y + window_size.1 - MIN_VISIBLE >= monitor_bounds.1
    &&& y + MIN_VISIBLE <= monitor_bounds.1 + monitor_bounds.3
}

/// A clamped position keeps at least `MIN_VISIBLE` pixels of the window on
/// the monitor; a position that already did is left unchanged; and clamping
/// twice gives the same position as clamping once.
pub proof fn lemma_clamp_position_laws(
    position: (i32, i32),
    window_size: (i32, i32),
    monitor_bounds: (i32, i32, i32, i32),
)
    requires
        axis_ok(monitor_bounds.0 as int, window_size.0 as int, monitor_bounds.2 as int),
        axis_ok(monitor_bounds.1 as int, window_size.1 as int, monitor_bounds.3 as int),
    ensures
        ({
            let cx = clamp_axis(
                position.0 as int,
                monitor_bounds.0 as int,
                window_size.0 as int,
                monitor_bounds.2 as int,
            );
            let cy = clamp_axis(
                position.1 as int,
                monitor_bounds.1 as int,
                window_size.1 as int,
                monitor_bounds.3 as int,
            );
            &&& keeps_visible(cx, cy, window_size, monitor_bounds)
            &&& keeps_visible(position.0 as int, position.1 as int, window_size, monitor_bounds)
                ==> cx == position.0 && cy == position.1
            &&& clamp_axis(
                cx,
                monitor_bounds.0 as int,
                window_size.0 as int,
                monitor_bounds.2 as int,
            ) == cx
            &&& clamp_axis(
                cy,
                monitor_bounds.1 as int,
                window_size.1 as int,
                monitor_bounds.3 as int,
            ) == cy
        }),
{
}

/// A monitor as seen when restoring the window: its name, its bounds in
/// physical pixels, and the saved window position converted to physical
/// pixels with this monitor's scale factor.
#[derive(Debug, Clone, PartialEq, Eq)]
pub struct MonitorInfo {
    pub name: Option<String>,
    pub x: i32,
    pub y: i32,
    pub width: u32,
    pub height: u32,
    pub saved_x: i32,
    pub saved_y: i32,
}

/// Whether the saved position lies on the monitor.
pub open spec fn holds_saved_position(m: MonitorInfo) -> bool {
    m.saved_x >= m.x && m.saved_x < m.x + (m.width as i32) && m.saved_y >= m.y && m.saved_y
        < m.y + (m.height as i32)
}

/// Whether the monitor has the saved monitor name.
pub open spec fn has_name(m: MonitorInfo, name: Option<Seq<char>>) -> bool {
    name matches Some(n) && m.name matches Some(mn) && mn@ == n
}

/// The index of the first monitor with the saved name, if any.
pub open spec fn first_named_monitor(monitors: Seq<MonitorInfo>, name: Option<Seq<char>>) -> Option<int>
    decreases monitors.len(),
{
    if monitors.len() == 0 {
        None
    } else if has_name(monitors[0], name) {
        Some(0)
    } else {
        match first_named_monitor(monitors.drop_first(), name) {
            Some(i) => Some(i + 1),
            None => None,
        }
    }
}

/// The index of the first monitor that holds the saved position, if any.
pub open spec fn first_holding_monitor(monitors: Seq<MonitorInfo>) -> Option<int>
    decreases monitors.len(),
{
    if monitors.len() == 0 {
        None
    } else if holds_saved_position(monitors[0]) {
        Some(0)
    } else {
        match first_holding_monitor(monitors.drop_first()) {
            Some(i) => Some(i + 1),
            None => None,
        }
    }
}

/// The monitor the window is restored on: the first with the saved name,
/// else the first that holds the saved position, else the first monitor.
pub open spec fn chosen_monitor(monitors: Seq<MonitorInfo>, name: Option<Seq<char>>) -> int {
    match first_named_monitor(monitors, name) {
        Some(i) => i,
        None => match first_holding_monitor(monitors) {
            Some(i) => i,
            None => 0,
        },
    }
}

proof fn lemma_named_scan(monitors: Seq<MonitorInfo>, name: Option<Seq<char>>, i: int)
    requires
        0 <= i <= monitors.len(),
        forall|j: int| 0 <= j < i ==> !has_name(#[trigger] monitors[j], name),
    ensures
        first_named_monitor(monitors, name) == (match first_named_monitor(monitors.skip(i), name) {
            Some(k) => Some(k + i),
            None => None,
        }),
    decreases i,
{
    if i > 0 {
        lemma_named_scan(monitors.drop_first(), name, i - 1);
        assert(monitors.drop_first().skip(i - 1) =~= monitors.skip(i));
    } else {
        assert(monitors.skip(0) =~= monitors);
    }
}

proof fn lemma_holding_scan(monitors: Seq<MonitorInfo>, i: int)
    requires
        0 <= i <= monitors.len(),
        forall|j: int| 0 <= j < i ==> !holds_saved_position(#[trigger] monitors[j]),
    ensures
        first_holding_monitor(monitors) == (match first_holding_monitor(monitors.skip(i)) {
            Some(k) => Some(k + i),
            None => None,
        }),
    decreases i,
{
    if i > 0 {
        lemma_holding_scan(monitors.drop_first(), i - 1);
        assert(monitors.drop_first().skip(i - 1) =~= monitors.skip(i));
    } else {
        assert(monitors.skip(0) =~= monitors);
    }
}

fn monitor_has_name(m: &MonitorInfo, name: Option<&str>) -> (r: bool)
    ensures
        r == has_name(*m, match name {
            Some(n) => Some(n@),
            None => None,
        }),
{
    match (name, &m.name) {
        (Some(n), Some(mn)) => str_eq(mn.as_str(), n),
        _ => false,
    }
}

fn monitor_holds_saved(m: &MonitorInfo) -> (r: bool)
    ensures
        r == holds_saved_position(*m),
{
    let x = m.x as i64;
    let y = m.y as i64;
    let right = x + ((m.width as i32) as i64);
    let bottom = y + ((m.height as i32) as i64);
    let sx = m.saved_x as i64;
    let sy = m.saved_y as i64;
    sx >= x && sx < right && sy >= y && sy < bottom
}

/// The index of the monitor to restore the window on; see `chosen_monitor`.
pub fn choose_monitor(monitors: &Vec<MonitorInfo>, name: Option<&str>) -> (r: usize)
    requires
        monitors@.len() > 0,
    ensures
        r as int == chosen_monitor(
            monitors@,
            match name {
                Some(n) => Some(n@),
                None => None,
            },
        ),
        r < monitors@.len(),
{
    let ghost sname = match name {
        Some(n) => Some(n@),
        None => None,
    };
    let n = monitors.len();
    let mut i: usize = 0;
    while i < n
        invariant
            n == monitors@.len(),
            i <= n,
            sname == (match name {
                Some(n) => Some(n@),
                None => None,
            }),
            forall|j: int| 0 <= j < i ==> !has_name(#[trigger] monitors@[j], sname),
        decreases n - i,
    {
        if monitor_has_name(&monitors[i], name) {
            proof {
                lemma_named_scan(monitors@, sname, i as int);
                assert(monitors@.skip(i as int)[0] == monitors@[i as int]);
            }
            return i;
        }
        i = i + 1;
    }
    proof {
        lemma_named_scan(monitors@, sname, n as int);
    }
    let mut k: usize = 0;
    while k < n
        invariant
            n == monitors@.len(),
            k <= n,
            forall|j: int| 0 <= j < k ==> !holds_saved_position(#[trigger] monitors@[j]),
            sname == (match name {
                Some(n) => Some(n@),
                None => None,
            }),
            first_named_monitor(monitors@, sname) is None,
        decreases n - k,
    {
        if monitor_holds_saved(&monitors[k]) {
            proof {
                lemma_holding_scan(monitors@, k as int);
                assert(monitors@.skip(k as int)[0] == monitors@[k as int]);
            }
            return k;
        }
        k = k + 1;
    }
    proof {
        lemma_holding_scan(monitors@, n as int);
    }
    0
}

/// The saved logical window position, when both coordinates were saved.
pub fn saved_position(settings: &WindowSettings) -> (r: Option<(i32, i32)>)
    ensures
        r == (match (settings.x, settings.y) {
            (Some(x), Some(y)) => Some((x, y)),
            _ => None,
        }),
{
    match (settings.x, settings.y) {
        (Some(x), Some(y)) => Some((x, y)),
        _ => None,
    }
}

/// What restoring the saved position does to the window.
#[derive(Debug, Clone, Copy, PartialEq, Eq)]
pub enum Placement {
    /// The window stays where it is.
    Keep,
    /// The window moves to this physical position.
    MoveTo(i32, i32),
    /// The chosen monitor and the window size leave no representable range of
    /// positions, on which `i32::clamp` would panic.
    OutOfRange,
}

fn axis_fits(start: i32, length: i32, extent: i32) -> (r: bool)
    ensures
        r == axis_ok(start as int, length as int, extent as int),
{
    let s = start as i64;
    let l = length as i64;
    let e = extent as i64;
    let min = i32::MIN as i64;
    let max = i32::MAX as i64;
    let low = s - l + (MIN_VISIBLE as i64);
    let high = s + e - (MIN_VISIBLE as i64);
    min <= s - l && s - l <= max && min <= s + e && s + e <= max && min <= low && low <= max
        && min <= high && high <= max && low <= high
}

/// The placement for the saved position: unchanged without monitors;
/// otherwise the saved position on the chosen monitor (see
/// `chosen_monitor`), clamped to keep the window visible, when the
/// monitor's bounds and the window size leave a representable range.
pub fn plan_restore(monitors: &Vec<MonitorInfo>, name: Option<&str>, window_size: (i32, i32)) -> (r:
    Placement)
    ensures
        monitors@.len() == 0 ==> r == Placement::Keep,
        monitors@.len() > 0 ==> ({
            let m = monitors@[chosen_monitor(
                monitors@,
                match name {
                    Some(n) => Some(n@),
                    None => None,
                },
            )];
            let w = m.width as i32;
            let h = m.height as i32;
            if axis_ok(m.x as int, window_size.0 as int, w as int) && axis_ok(
                m.y as int,
                window_size.1 as int,
                h as int,
            ) {
                r == Placement::MoveTo(
                    clamp_axis(m.saved_x as int, m.x as int, window_size.0 as int, w as int) as i32,
                    clamp_axis(m.saved_y as int, m.y as int, window_size.1 as int, h as int) as i32,
                )
            } else {
                r == Placement::OutOfRange
            }
        }),
{
    if monitors.len() == 0 {
        return Placement::Keep;
    }
    let i = choose_monitor(monitors, name);
    let m = &monitors[i];
    let w = m.width as i32;
    let h = m.height as i32;
    if axis_fits(m.x, window_size.0, w) && axis_fits(m.y, window_size.1, h) {
        let (x, y) = clamp_position((m.saved_x, m.saved_y), window_size, (m.x, m.y, w, h));
        Placement::MoveTo(x, y)
    } else {
        Placement::OutOfRange
    }
}

/// What a click on the tray icon does to the widget.
#[derive(Debug, Clone, Copy, PartialEq, Eq)]
pub enum ToggleAction {
    Hide,
    Show,
}

/// A click hides the widget when it is visible and focused, and shows and
/// raises it otherwise.
pub fn toggle_action(visible: bool, focused: bool) -> (r: ToggleAction)
    ensures
        r == (if visible && focused {
            ToggleAction::Hide
        } else {
            ToggleAction::Show
        }),
{
    if visible && focused {
        ToggleAction::Hide
    } else {
        ToggleAction::Show
    }
}

} // verus!
