//! Where the floating window goes: just below and to the right of the pointer,
//! flipped to the other side of the pointer where it would leave the screen
//! that holds the pointer, and never left of or above that screen.

use vstd::prelude::*;

verus! {

/// The distance between the pointer and the window.
pub const CURSOR_GAP: i32 = 16;

/// A monitor's area in physical pixels.
#[derive(Debug, Clone, Copy, PartialEq, Eq, Structural)]
pub struct MonitorArea {
    pub x: i32,
    pub y: i32,
    pub width: i32,
    pub height: i32,
}

pub open spec fn monitor_contains(m: MonitorArea, cx: int, cy: int) -> bool {
    m.x <= cx < m.x + m.width && m.y <= cy < m.y + m.height
}

/// The first monitor, in the order given, that holds the point.
pub open spec fn monitor_at(ms: Seq<MonitorArea>, cx: int, cy: int) -> Option<MonitorArea>
    decreases ms.len(),
{
    if ms.len() == 0 {
        None
    } else if monitor_contains(ms[0], cx, cy) {
        Some(ms[0])
    } else {
        monitor_at(ms.drop_first(), cx, cy)
    }
}

pub open spec fn max_int(a: int, b: int) -> int {
    if a >= b { a } else { b }
}

/// The top-left corner of a `w` by `h` window shown for a pointer at (`cx`, `cy`).
pub open spec fn window_placement(cx: int, cy: int, w: int, h: int, ms: Seq<MonitorArea>) -> (int, int) {
    let x = cx + CURSOR_GAP;
    let y = cy + CURSOR_GAP;
    match monitor_at(ms, cx, cy) {
        None => (x, y),
        Some(m) => {
            let x1 = if x + w > m.x + m.width { cx - w - CURSOR_GAP } else { x };
            let y1 = if y + h > m.y + m.height { cy - h - CURSOR_GAP } else { y };
            (max_int(x1, m.x as int), max_int(y1, m.y as int))
        },
    }
}

proof fn lemma_monitor_at_prefix(ms: Seq<MonitorArea>, i: int, cx: int, cy: int)
    requires
        0 <= i <= ms.len(),
        forall|j: int| 0 <= j < i ==> !monitor_contains(#[trigger] ms[j], cx, cy),
    ensures
        monitor_at(ms, cx, cy) == monitor_at(ms.skip(i), cx, cy),
    decreases i,
{
    if i > 0 {
        let t = ms.drop_first();
        assert(!monitor_contains(ms[0], cx, cy));
        assert forall|j: int| 0 <= j < i - 1 implies !monitor_contains(#[trigger] t[j], cx, cy) by {
            assert(t[j] == ms[j + 1]);
        }
        lemma_monitor_at_prefix(t, i - 1, cx, cy);
        assert(t.skip(i - 1) =~= ms.skip(i));
    } else {
        assert(ms.skip(0) =~= ms);
    }
}

fn contains_point(m: MonitorArea, cx: i32, cy: i32) -> (r: bool)
    ensures
        r == monitor_contains(m, cx as int, cy as int),
{
    let right = m.x as i64 + m.width as i64;
    let bottom = m.y as i64 + m.height as i64;
    cx >= m.x && (cx as i64) < right && cy >= m.y && (cy as i64) < bottom
}

/// Where to put a `width` by `height` window for a pointer at (`cursor_x`, `cursor_y`).
pub fn window_position(
    cursor_x: i32,
    cursor_y: i32,
    width: i32,
    height: i32,
    monitors: &Vec<MonitorArea>,
) -> (r: (i32, i32))
    requires
        cursor_x + CURSOR_GAP <= i32::MAX,
        cursor_y + CURSOR_GAP <= i32::MAX,
        width >= 0,
        height >= 0,
    ensures
        (r.0 as int, r.1 as int) == window_placement(
            cursor_x as int,
            cursor_y as int,
            width as int,
            height as int,
            monitors@,
        ),
{
    let n = monitors.len();
    let mut i: usize = 0;
    let mut hit = false;
    while i < n && !hit
        invariant
            n == monitors@.len(),
            i <= n,
            hit ==> i < n && monitor_contains(monitors@[i as int], cursor_x as int, cursor_y as int),
            forall|j: int| 0 <= j < i ==> !monitor_contains(#[trigger] monitors@[j], cursor_x as int, cursor_y as int),
        decreases n - i + (if hit { 0int } else { 1int }),
    {
        if contains_point(monitors[i], cursor_x, cursor_y) {
            hit = true;
        } else {
            i = i + 1;
        }
    }
    proof {
        lemma_monitor_at_prefix(monitors@, i as int, cursor_x as int, cursor_y as int);
        if hit {
            assert(monitors@.skip(i as int)[0] == monitors@[i as int]);
        } else {
            assert(monitors@.skip(i as int).len() == 0);
        }
    }
    let found: Option<MonitorArea> = if hit { Some(monitors[i]) } else { None };
    let x: i32 = cursor_x + CURSOR_GAP;
    let y: i32 = cursor_y + CURSOR_GAP;
    match found {
        None => (x, y),
        Some(m) => {
            let right = m.x as i64 + m.width as i64;
            let bottom = m.y as i64 + m.height as i64;
            let mut x1: i64 = x as i64;
            let mut y1: i64 = y as i64;
            if x1 + width as i64 > right {
                x1 = cursor_x as i64 - width as i64 - CURSOR_GAP as i64;
            }
            if y1 + height as i64 > bottom {
                y1 = cursor_y as i64 - height as i64 - CURSOR_GAP as i64;
            }
            if x1 < m.x as i64 {
                x1 = m.x as i64;
            }
            if y1 < m.y as i64 {
                y1 = m.y as i64;
            }
            (x1 as i32, y1 as i32)
        },
    }
}

proof fn lemma_monitor_at_contains(ms: Seq<MonitorArea>, cx: int, cy: int)
    ensures
        monitor_at(ms, cx, cy) matches Some(m) ==> monitor_contains(m, cx, cy),
    decreases ms.len(),
{
    if ms.len() > 0 {
        lemma_monitor_at_contains(ms.drop_first(), cx, cy);
    }
}

/// A window shown for a pointer on a monitor never starts left of or above that
/// monitor, and it keeps its place below and to the right of the pointer
/// wherever it fits there.
pub proof fn lemma_window_stays_on_pointer_monitor(
    cx: int,
    cy: int,
    w: int,
    h: int,
    ms: Seq<MonitorArea>,
    m: MonitorArea,
)
    requires
        monitor_at(ms, cx, cy) == Some(m),
        w >= 0,
        h >= 0,
    ensures
        window_placement(cx, cy, w, h, ms).0 >= m.x,
        window_placement(cx, cy, w, h, ms).1 >= m.y,
        cx + CURSOR_GAP + w <= m.x + m.width ==> window_placement(cx, cy, w, h, ms).0 == cx + CURSOR_GAP,
        cy + CURSOR_GAP + h <= m.y + m.height ==> window_placement(cx, cy, w, h, ms).1 == cy + CURSOR_GAP,
{
    lemma_monitor_at_contains(ms, cx, cy);
}

/// Where the window does not fit to the right of (or below) the pointer on the
/// pointer's monitor, it flips to the pointer's left (or above it), but never
/// past the monitor's left (or top) edge.
pub proof fn lemma_window_flips_at_monitor_edge(
    cx: int,
    cy: int,
    w: int,
    h: int,
    ms: Seq<MonitorArea>,
    m: MonitorArea,
)
    requires
        monitor_at(ms, cx, cy) == Some(m),
    ensures
        cx + CURSOR_GAP + w > m.x + m.width ==> window_placement(cx, cy, w, h, ms).0 == (
            if cx - w - CURSOR_GAP >= m.x { cx - w - CURSOR_GAP } else { m.x as int }),
        cy + CURSOR_GAP + h > m.y + m.height ==> window_placement(cx, cy, w, h, ms).1 == (
            if cy - h - CURSOR_GAP >= m.y { cy - h - CURSOR_GAP } else { m.y as int }),
{
}

/// A window that fits on either side of the pointer within the pointer's
/// monitor stays within that monitor's left and right edges, and likewise
/// above and below.
pub proof fn lemma_window_stays_within_monitor(cx: int, cy: int, w: int, h: int, ms: Seq<MonitorArea>, m: MonitorArea)
    requires
        monitor_at(ms, cx, cy) == Some(m),
        w >= 0,
        h >= 0,
    ensures
        (cx + CURSOR_GAP + w <= m.x + m.width || cx - w - CURSOR_GAP >= m.x) ==> (
            m.x <= window_placement(cx, cy, w, h, ms).0
            && window_placement(cx, cy, w, h, ms).0 + w <= m.x + m.width),
        (cy + CURSOR_GAP + h <= m.y + m.height || cy - h - CURSOR_GAP >= m.y) ==> (
            m.y <= window_placement(cx, cy, w, h, ms).1
            && window_placement(cx, cy, w, h, ms).1 + h <= m.y + m.height),
{
    lemma_monitor_at_contains(ms, cx, cy);
}

/// The monitor that decides the placement is the first one, in the order
/// given, whose area holds the pointer; there is none only when no monitor
/// holds it.
pub proof fn lemma_monitor_at_is_first(ms: Seq<MonitorArea>, cx: int, cy: int)
    ensures
        monitor_at(ms, cx, cy) is None <==> (forall|i: int| 0 <= i < ms.len() ==> !monitor_contains(#[trigger] ms[i], cx, cy)),
        monitor_at(ms, cx, cy) matches Some(m) ==> exists|i: int| {
            &&& 0 <= i < ms.len()
            &&& ms[i] == m
            &&& m.x <= cx < m.x + m.width
            &&& m.y <= cy < m.y + m.height
            &&& forall|j: int| 0 <= j < i ==> !monitor_contains(#[trigger] ms[j], cx, cy)
        },
    decreases ms.len(),
{
    if ms.len() > 0 {
        let t = ms.drop_first();
        lemma_monitor_at_is_first(t, cx, cy);
        if monitor_contains(ms[0], cx, cy) {
            assert(forall|j: int| 0 <= j < 0 ==> !monitor_contains(#[trigger] ms[j], cx, cy));
        } else {
            assert forall|i: int| 0 <= i < t.len() implies t[i] == ms[i + 1] by {}
            if monitor_at(t, cx, cy) is None {
                assert forall|i: int| 0 <= i < ms.len() implies !monitor_contains(#[trigger] ms[i], cx, cy) by {
                    if i > 0 {
                        assert(ms[i] == t[i - 1]);
                    }
                }
            } else {
                let i = choose|i: int| {
                    &&& 0 <= i < t.len()
                    &&& t[i] == monitor_at(t, cx, cy)->0
                    &&& forall|j: int| 0 <= j < i ==> !monitor_contains(#[trigger] t[j], cx, cy)
                };
                assert(ms[i + 1] == t[i]);
                assert forall|j: int| 0 <= j < i + 1 implies !monitor_contains(#[trigger] ms[j], cx, cy) by {
                    if j > 0 {
                        assert(ms[j] == t[j - 1]);
                    }
                }
            }
        }
    }
}

/// Without a monitor under the pointer the window simply goes below and to the
/// right of it.
pub proof fn lemma_window_without_monitor(cx: int, cy: int, w: int, h: int, ms: Seq<MonitorArea>)
    requires
        monitor_at(ms, cx, cy) is None,
    ensures
        window_placement(cx, cy, w, h, ms) == (cx + CURSOR_GAP, cy + CURSOR_GAP),
{
}

} // verus!
