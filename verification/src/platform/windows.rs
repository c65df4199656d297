//! Windows back end: the decisions behind its Win32 calls, which the
//! application makes with the values decided here.
use vstd::prelude::*;
use crate::geometry::{border_window_region, rect_from_edges, CaptureRect};
use crate::hit_test::CursorShape;
use crate::mouse_hook::{age_ms, WM_LBUTTONDOWN, WM_RBUTTONDOWN};
use crate::seq_lemmas::{lemma_filter_take_step, lemma_take_full};

verus! {

/// A mouse press seen by the hook.
#[derive(Debug, Clone, Copy, PartialEq, Eq, Structural)]
pub struct MouseClick {
    pub x: i32,
    pub y: i32,
    /// When the press happened, in milliseconds on the application's clock.
    pub timestamp_ms: u64,
    /// Left button (otherwise right).
    pub is_left: bool,
}

/// Which edge or corner of the border window a drag resizes, or whether it
/// moves the window, or neither.
#[derive(Debug, Clone, Copy, PartialEq, Eq, Structural)]
pub enum ResizeDirection {
    TopLeft,
    Top,
    TopRight,
    Left,
    Right,
    BottomLeft,
    Bottom,
    BottomRight,
    Move,
    /// No resize and no move.
    Idle,
}

/// The system cursor shown for a resize direction.
pub open spec fn cursor_for_direction_spec(d: ResizeDirection) -> CursorShape {
    match d {
        ResizeDirection::TopLeft | ResizeDirection::BottomRight => CursorShape::SizeNwse,
        ResizeDirection::TopRight | ResizeDirection::BottomLeft => CursorShape::SizeNesw,
        ResizeDirection::Top | ResizeDirection::Bottom => CursorShape::SizeNs,
        ResizeDirection::Left | ResizeDirection::Right => CursorShape::SizeWe,
        ResizeDirection::Move => CursorShape::SizeAll,
        ResizeDirection::Idle => CursorShape::Arrow,
    }
}

/// The system cursor to set for a resize direction.
pub fn set_cursor_for_direction(direction: ResizeDirection) -> (r: CursorShape)
    ensures
        r == cursor_for_direction_spec(direction),
{
    match direction {
        ResizeDirection::TopLeft | ResizeDirection::BottomRight => CursorShape::SizeNwse,
        ResizeDirection::TopRight | ResizeDirection::BottomLeft => CursorShape::SizeNesw,
        ResizeDirection::Top | ResizeDirection::Bottom => CursorShape::SizeNs,
        ResizeDirection::Left | ResizeDirection::Right => CursorShape::SizeWe,
        ResizeDirection::Move => CursorShape::SizeAll,
        ResizeDirection::Idle => CursorShape::Arrow,
    }
}

/// How long a press is kept by the hook, in milliseconds.
pub const CLICK_KEEP_MS: u64 = 2000;

/// Whether a press is younger than two seconds at `now`.
pub open spec fn click_fresh(c: MouseClick, now: u64) -> bool {
    age_ms(now, c.timestamp_ms) < CLICK_KEEP_MS
}

/// The presses kept after the hook sees a message at `now`: a left or right
/// press (with a non-negative hook code, while the hook is enabled) is
/// appended; then only the presses younger than two seconds are kept.
/// Other messages change nothing.
pub open spec fn hook_event_spec(
    clicks: Seq<MouseClick>,
    enabled: bool,
    code: i32,
    message: u32,
    x: i32,
    y: i32,
    now: u64,
) -> Seq<MouseClick> {
    if code >= 0 && enabled && (message == WM_LBUTTONDOWN || message == WM_RBUTTONDOWN) {
        clicks.push(MouseClick { x, y, timestamp_ms: now, is_left: message == WM_LBUTTONDOWN }).filter(
            |c: MouseClick| click_fresh(c, now),
        )
    } else {
        clicks
    }
}

/// The global mouse hook: whether it is installed, whether it records, and
/// the presses it recorded, oldest first.
pub struct MouseHookState {
    installed: bool,
    enabled: bool,
    clicks: Vec<MouseClick>,
}

impl View for MouseHookState {
    type V = Seq<MouseClick>;

    closed spec fn view(&self) -> Seq<MouseClick> {
        self.clicks@
    }
}

impl MouseHookState {
    pub closed spec fn installed_spec(&self) -> bool {
        self.installed
    }

    pub closed spec fn enabled_spec(&self) -> bool {
        self.enabled
    }

    /// No hook, no presses.
    pub fn new() -> (r: Self)
        ensures
            !r.installed_spec(),
            !r.enabled_spec(),
            r@ == Seq::<MouseClick>::empty(),
    {
        MouseHookState { installed: false, enabled: false, clicks: Vec::new() }
    }

    /// Whether a hook is installed (then installing again does nothing).
    pub fn is_installed(&self) -> (r: bool)
        ensures
            r == self.installed_spec(),
    {
        self.installed
    }

    /// The outcome of installing the hook: `hook_ok` tells whether the
    /// system accepted a new hook; it is consulted only where none was
    /// installed. Returns whether a hook is installed afterwards.
    pub fn install_mouse_hook(&mut self, hook_ok: bool) -> (r: bool)
        ensures
            old(self).installed_spec() ==> r && final(self).installed_spec() == old(self).installed_spec()
                && final(self).enabled_spec() == old(self).enabled_spec(),
            !old(self).installed_spec() ==> r == hook_ok && final(self).installed_spec() == hook_ok
                && final(self).enabled_spec() == (hook_ok || old(self).enabled_spec()),
            final(self)@ == old(self)@,
    {
        if self.installed {
            return true;
        }
        if hook_ok {
            self.installed = true;
            self.enabled = true;
            true
        } else {
            false
        }
    }

    /// Uninstall the hook: it stops recording and its presses are
    /// forgotten. Returns whether a hook was installed, which the caller
    /// then unhooks.
    pub fn uninstall_mouse_hook(&mut self) -> (r: bool)
        ensures
            r == old(self).installed_spec(),
            !final(self).installed_spec(),
            !final(self).enabled_spec(),
            final(self)@ == Seq::<MouseClick>::empty(),
    {
        let had = self.installed;
        self.enabled = false;
        self.installed = false;
        self.clicks.clear();
        had
    }

    /// The hook sees a mouse message at `now_ms`.
    pub fn hook_event(&mut self, code: i32, message: u32, x: i32, y: i32, now_ms: u64)
        ensures
            final(self)@ == hook_event_spec(old(self)@, old(self).enabled_spec(), code, message, x, y, now_ms),
            final(self).installed_spec() == old(self).installed_spec(),
            final(self).enabled_spec() == old(self).enabled_spec(),
    {
        if !(code >= 0 && self.enabled && (message == WM_LBUTTONDOWN || message == WM_RBUTTONDOWN)) {
            return;
        }
        self.clicks.push(MouseClick { x, y, timestamp_ms: now_ms, is_left: message == WM_LBUTTONDOWN });
        let ghost pushed = self.clicks@;
        let ghost pred = |c: MouseClick| click_fresh(c, now_ms);
        let mut kept: Vec<MouseClick> = Vec::new();
        let mut i: usize = 0;
        while i < self.clicks.len()
            invariant
                0 <= i <= self.clicks@.len(),
                self.clicks@ == pushed,
                kept@ == pushed.take(i as int).filter(pred),
                pred == (|c: MouseClick| click_fresh(c, now_ms)),
            decreases self.clicks.len() - i,
        {
            let c = self.clicks[i];
            proof {
                lemma_filter_take_step(pushed, i as int, pred);
            }
            let age: u64 = if now_ms > c.timestamp_ms {
                now_ms - c.timestamp_ms
            } else {
                0
            };
            if age < CLICK_KEEP_MS {
                kept.push(c);
            }
            i = i + 1;
        }
        proof {
            lemma_take_full(pushed);
        }
        self.clicks = kept;
    }

    /// The recorded presses, oldest first; the record is emptied, so a
    /// second read gives only what was pressed in between.
    pub fn get_mouse_clicks(&mut self) -> (r: Vec<MouseClick>)
        ensures
            r@ == old(self)@,
            final(self)@ == Seq::<MouseClick>::empty(),
            final(self).installed_spec() == old(self).installed_spec(),
            final(self).enabled_spec() == old(self).enabled_spec(),
    {
        let r = self.clicks.clone();
        self.clicks.clear();
        r
    }

    /// Whether the hook records presses.
    pub fn is_mouse_hook_active(&self) -> (r: bool)
        ensures
            r == self.enabled_spec(),
    {
        self.enabled
    }
}

/// The highest refresh rate taken as real, in Hz.
pub const MAX_REFRESH_HZ: u32 = 500;

/// The refresh rate to use: the one the display reports when it is between
/// 1 and 500 Hz, else 60 Hz.
pub fn get_monitor_refresh_rate(reported: Option<u32>) -> (r: u32)
    ensures
        r == (match reported {
            Some(hz) => if 0 < hz && hz <= MAX_REFRESH_HZ {
                hz
            } else {
                60
            },
            None => 60,
        }),
{
    match reported {
        Some(hz) => {
            if hz > 0 && hz <= MAX_REFRESH_HZ {
                hz
            } else {
                60
            }
        },
        None => 60,
    }
}

/// The primary monitor's work area: the work rectangle the system reports,
/// or else a rectangle at the origin of the screen's size.
pub fn get_primary_monitor_rect(work: Option<(i32, i32, i32, i32)>, screen_width: i32, screen_height: i32) -> (r: CaptureRect)
    requires
        work matches Some(w) ==> i32::MIN <= w.2 - w.0 <= i32::MAX && i32::MIN <= w.3 - w.1 <= i32::MAX,
    ensures
        match work {
            Some(w) => r == (CaptureRect {
                x: w.0,
                y: w.1,
                width: (w.2 - w.0) as u32,
                height: (w.3 - w.1) as u32,
            }),
            None => r == (CaptureRect {
                x: 0,
                y: 0,
                width: screen_width as u32,
                height: screen_height as u32,
            }),
        },
{
    match work {
        Some(w) => rect_from_edges(w.0, w.1, w.2, w.3),
        None => CaptureRect { x: 0, y: 0, width: screen_width as u32, height: screen_height as u32 },
    }
}

/// The window region of a border window after a resize: the whole window,
/// minus the inside of the border. Rectangles are (left, top, right,
/// bottom); the application applies the region to the window.
pub fn update_border_window_region(width: i32, height: i32, border_width: i32) -> (r: (
    (i32, i32, i32, i32),
    (i32, i32, i32, i32),
))
    requires
        i32::MIN <= width - border_width <= i32::MAX,
        i32::MIN <= height - border_width <= i32::MAX,
    ensures
        r.0 == (0i32, 0i32, width, height),
        r.1 == (border_width, border_width, (width - border_width) as i32, (height - border_width) as i32),
{
    border_window_region(width, height, border_width)
}

/// The layered extended window style.
pub const WS_EX_LAYERED: i32 = 0x0008_0000;

/// The click-through extended window style.
pub const WS_EX_TRANSPARENT: i32 = 0x0000_0020;

/// The extended style of a window made click-through or not: always
/// layered, and click-through exactly when asked.
pub fn click_through_style(style: i32, click_through: bool) -> (r: i32)
    ensures
        r & WS_EX_LAYERED == WS_EX_LAYERED,
        click_through ==> r & WS_EX_TRANSPARENT == WS_EX_TRANSPARENT,
        !click_through ==> r & WS_EX_TRANSPARENT == 0,
        forall|b: u32| #![auto] b < 32 && b != 19 && b != 5 ==> (r >> b) & 1 == (style >> b) & 1,
        r == (if click_through {
            style | WS_EX_LAYERED | WS_EX_TRANSPARENT
        } else {
            (style | WS_EX_LAYERED) & !WS_EX_TRANSPARENT
        }),
{
    let layered = style | WS_EX_LAYERED;
    let r = if click_through {
        layered | WS_EX_TRANSPARENT
    } else {
        layered & !WS_EX_TRANSPARENT
    };
    assert(r & WS_EX_LAYERED == WS_EX_LAYERED) by (bit_vector)
        requires
            r == (if click_through { layered | 0x20i32 } else { layered & !0x20i32 }),
            layered == style | 0x0008_0000i32,
            WS_EX_LAYERED == 0x0008_0000i32;
    assert(click_through ==> r & WS_EX_TRANSPARENT == WS_EX_TRANSPARENT) by (bit_vector)
        requires
            r == (if click_through { layered | 0x20i32 } else { layered & !0x20i32 }),
            WS_EX_TRANSPARENT == 0x20i32;
    assert(!click_through ==> r & WS_EX_TRANSPARENT == 0) by (bit_vector)
        requires
            r == (if click_through { layered | 0x20i32 } else { layered & !0x20i32 }),
            WS_EX_TRANSPARENT == 0x20i32;
    assert(forall|b: u32| #![auto] b < 32 && b != 19 && b != 5 ==> (r >> b) & 1 == (style >> b) & 1) by (bit_vector)
        requires
            r == (if click_through { layered | 0x20i32 } else { layered & !0x20i32 }),
            layered == style | 0x0008_0000i32;
    r
}

/// The extended style that makes a window layered before its opacity is
/// set, where it is not layered yet.
pub fn layered_style(style: i32) -> (r: Option<i32>)
    ensures
        r == (if style & WS_EX_LAYERED == 0 {
            Some(style | WS_EX_LAYERED)
        } else {
            None::<i32>
        }),
{
    if style & WS_EX_LAYERED == 0 {
        Some(style | WS_EX_LAYERED)
    } else {
        None
    }
}

/// The presses kept are those younger than two seconds, and recording a
/// press never keeps more than the younger ones plus it.
pub proof fn lemma_hook_keeps_fresh(
    clicks: Seq<MouseClick>,
    enabled: bool,
    code: i32,
    message: u32,
    x: i32,
    y: i32,
    now: u64,
)
    requires
        code >= 0,
        enabled,
        message == WM_LBUTTONDOWN || message == WM_RBUTTONDOWN,
    ensures
        ({
            let after = hook_event_spec(clicks, enabled, code, message, x, y, now);
            &&& forall|i: int| 0 <= i < after.len() ==> click_fresh(#[trigger] after[i], now)
            &&& after.len() >= 1
            &&& after.last() == (MouseClick { x, y, timestamp_ms: now, is_left: message == WM_LBUTTONDOWN })
        }),
{
    let c = MouseClick { x, y, timestamp_ms: now, is_left: message == WM_LBUTTONDOWN };
    let pred = |m: MouseClick| click_fresh(m, now);
    let after = clicks.push(c).filter(pred);
    assert forall|i: int| 0 <= i < after.len() implies click_fresh(#[trigger] after[i], now) by {
        clicks.push(c).lemma_filter_pred(pred, i);
    }
    crate::seq_lemmas::lemma_filter_push(clicks, c, pred);
}

} // verus!
