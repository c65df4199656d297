//! The destination window's state: the frame it shows, the click highlights
//! drawn over it, and the capture controls.
//!
//! The textures and the drawing stay with the application's GUI toolkit;
//! what is shown, and which highlights are drawn where, is decided here.
use vstd::prelude::*;
use crate::mouse_hook::age_ms;
use crate::seq_lemmas::{lemma_filter_take_step, lemma_take_full};

verus! {

/// A click drawn over the frame: screen position, time (milliseconds on the
/// application's clock), button, and colour (RGBA).
#[derive(Debug, Clone, Copy)]
pub struct ClickHighlight {
    pub x: i32,
    pub y: i32,
    pub timestamp_ms: u64,
    pub is_left: bool,
    pub color: [u8; 4],
}

/// What the destination window shows.
#[derive(Debug, Clone, Copy, PartialEq, Eq, Structural)]
pub enum ShownContent {
    /// The captured frame.
    Frame,
    /// The test pattern (capturing, but no frame has arrived).
    TestPattern,
    /// The "waiting for capture" placeholder.
    Placeholder,
}

/// Width and height of the test pattern.
pub const TEST_PATTERN_WIDTH: usize = 320;
pub const TEST_PATTERN_HEIGHT: usize = 240;

/// How long a click highlight lasts by default, in milliseconds.
pub const DEFAULT_HIGHLIGHT_MS: u32 = 500;

/// The destination window's state.
pub struct DestinationState {
    /// Whether a captured frame has been received (and not cleared).
    pub has_frame: bool,
    /// Whether the test pattern has been made.
    pub has_test_pattern: bool,
    pub frame_size: (u32, u32),
    pub show_debug: bool,
    pub frame_count: u64,
    pub is_capturing: bool,
    pub stop_requested: bool,
    pub click_highlights: Vec<ClickHighlight>,
    /// The capture region (x, y, width, height), for placing highlights.
    pub capture_region: Option<(i32, i32, u32, u32)>,
    pub click_highlight_duration_ms: u32,
}

/// Abstract value of the destination window's state.
pub struct DestinationView {
    pub has_frame: bool,
    pub has_test_pattern: bool,
    pub frame_size: (u32, u32),
    pub show_debug: bool,
    pub frame_count: u64,
    pub is_capturing: bool,
    pub stop_requested: bool,
    pub click_highlights: Seq<ClickHighlight>,
    pub capture_region: Option<(i32, i32, u32, u32)>,
    pub click_highlight_duration_ms: u32,
}

impl View for DestinationState {
    type V = DestinationView;

    open spec fn view(&self) -> DestinationView {
        DestinationView {
            has_frame: self.has_frame,
            has_test_pattern: self.has_test_pattern,
            frame_size: self.frame_size,
            show_debug: self.show_debug,
            frame_count: self.frame_count,
            is_capturing: self.is_capturing,
            stop_requested: self.stop_requested,
            click_highlights: self.click_highlights@,
            capture_region: self.capture_region,
            click_highlight_duration_ms: self.click_highlight_duration_ms,
        }
    }
}

/// Whether a highlight is younger than its duration at `now`.
pub open spec fn highlight_live(h: ClickHighlight, now: u64, duration: u32) -> bool {
    age_ms(now, h.timestamp_ms) < duration
}

/// The highlights made from new clicks, all in one colour.
pub open spec fn new_highlights(clicks: Seq<(i32, i32, u64, bool)>, color: [u8; 4]) -> Seq<ClickHighlight> {
    clicks.map_values(|c: (i32, i32, u64, bool)| ClickHighlight { x: c.0, y: c.1, timestamp_ms: c.2, is_left: c.3, color })
}

/// A highlight's position relative to the capture region, where it lies
/// inside the region.
pub open spec fn highlight_offset(h: ClickHighlight, region: (i32, i32, u32, u32)) -> Option<(i32, i32)> {
    let rel_x = h.x - region.0;
    let rel_y = h.y - region.1;
    if rel_x >= 0 && rel_y >= 0 && rel_x < (region.2 as i32) && rel_y < (region.3 as i32) {
        Some((rel_x as i32, rel_y as i32))
    } else {
        None
    }
}

/// Whether every highlight's offset from the region fits in 32 bits.
pub open spec fn offsets_fit(hs: Seq<ClickHighlight>, region: (i32, i32, u32, u32)) -> bool {
    forall|i: int|
        0 <= i < hs.len() ==> i32::MIN <= #[trigger] hs[i].x - region.0 <= i32::MAX && i32::MIN <= hs[i].y
            - region.1 <= i32::MAX
}

/// The highlights drawn: where a region is known, those inside it, each
/// with its offset in the region, in order.
pub open spec fn drawn_highlights(hs: Seq<ClickHighlight>, region: (i32, i32, u32, u32)) -> Seq<(ClickHighlight, (i32, i32))>
    decreases hs.len(),
{
    if hs.len() == 0 {
        Seq::empty()
    } else {
        let rest = drawn_highlights(hs.drop_last(), region);
        match highlight_offset(hs.last(), region) {
            Some(o) => rest.push((hs.last(), o)),
            None => rest,
        }
    }
}

/// RGBA from BGRA, four bytes at a time; a trailing incomplete group is
/// dropped.
pub open spec fn bgra_to_rgba_spec(data: Seq<u8>) -> Seq<u8> {
    Seq::new(
        (data.len() / 4 * 4) as nat,
        |i: int|
            {
                let base = i - i % 4;
                let k = i % 4;
                if k == 0 {
                    data[base + 2]
                } else if k == 2 {
                    data[base]
                } else {
                    data[i]
                }
            },
    )
}

/// The colour bar of column `x` in a pattern `width` columns wide: white,
/// yellow, cyan, green, magenta, red, blue, then black.
pub open spec fn bar_color(x: int, width: int) -> (u8, u8, u8) {
    let bar = x * 8 / width;
    if bar == 0 {
        (255, 255, 255)
    } else if bar == 1 {
        (255, 255, 0)
    } else if bar == 2 {
        (0, 255, 255)
    } else if bar == 3 {
        (0, 255, 0)
    } else if bar == 4 {
        (255, 0, 255)
    } else if bar == 5 {
        (255, 0, 0)
    } else if bar == 6 {
        (0, 0, 255)
    } else {
        (0, 0, 0)
    }
}

/// A value clamped to a byte.
pub open spec fn clamp_byte(v: int) -> u8 {
    if v < 0 {
        0
    } else if v > 255 {
        255
    } else {
        v as u8
    }
}

/// Byte `i` of the test pattern (RGBA, row after row): the column's colour
/// bar, with red shifted by the column's wave and clamped, fully opaque.
pub open spec fn test_pattern_byte(waves: Seq<i32>, i: int) -> u8 {
    let px = i / 4;
    let x = px % (TEST_PATTERN_WIDTH as int);
    let (r, g, b) = bar_color(x, TEST_PATTERN_WIDTH as int);
    let k = i % 4;
    if k == 0 {
        clamp_byte(r + waves[x])
    } else if k == 1 {
        g
    } else if k == 2 {
        b
    } else {
        255
    }
}

/// The colour bar of a column.
fn bar_rgb(x: usize, width: usize) -> (r: (u8, u8, u8))
    requires
        0 < width <= 10_000,
        x < width,
    ensures
        r == bar_color(x as int, width as int),
{
    let bar = x * 8 / width;
    if bar == 0 {
        (255, 255, 255)
    } else if bar == 1 {
        (255, 255, 0)
    } else if bar == 2 {
        (0, 255, 255)
    } else if bar == 3 {
        (0, 255, 0)
    } else if bar == 4 {
        (255, 0, 255)
    } else if bar == 5 {
        (255, 0, 0)
    } else if bar == 6 {
        (0, 0, 255)
    } else {
        (0, 0, 0)
    }
}

/// The test pattern's pixels (320 by 240, RGBA): eight colour bars, with
/// red shifted per column by `waves` (the animation, one value per column).
pub fn test_pattern_pixels(waves: &Vec<i32>) -> (r: Vec<u8>)
    requires
        waves@.len() == TEST_PATTERN_WIDTH,
        forall|i: int| 0 <= i < waves@.len() ==> -20 <= #[trigger] waves@[i] <= 20,
    ensures
        r@.len() == TEST_PATTERN_WIDTH * TEST_PATTERN_HEIGHT * 4,
        forall|i: int| 0 <= i < r@.len() ==> #[trigger] r@[i] == test_pattern_byte(waves@, i),
{
    let width = TEST_PATTERN_WIDTH;
    let height = TEST_PATTERN_HEIGHT;
    let mut pixels: Vec<u8> = Vec::new();
    let mut y: usize = 0;
    while y < height
        invariant
            0 <= y <= height == TEST_PATTERN_HEIGHT,
            width == TEST_PATTERN_WIDTH,
            waves@.len() == TEST_PATTERN_WIDTH,
            forall|i: int| 0 <= i < waves@.len() ==> -20 <= #[trigger] waves@[i] <= 20,
            pixels@.len() == y * width * 4,
            forall|i: int| 0 <= i < pixels@.len() ==> #[trigger] pixels@[i] == test_pattern_byte(waves@, i),
        decreases height - y,
    {
        let mut x: usize = 0;
        while x < width
            invariant
                0 <= y < height == TEST_PATTERN_HEIGHT,
                0 <= x <= width == TEST_PATTERN_WIDTH,
                waves@.len() == TEST_PATTERN_WIDTH,
                forall|i: int| 0 <= i < waves@.len() ==> -20 <= #[trigger] waves@[i] <= 20,
                pixels@.len() == (y * width + x) * 4,
                forall|i: int| 0 <= i < pixels@.len() ==> #[trigger] pixels@[i] == test_pattern_byte(waves@, i),
            decreases width - x,
        {
            let (r, g, b) = bar_rgb(x, width);
            assert(-20 <= waves@[x as int] <= 20);
            let v: i32 = r as i32 + waves[x];
            let red: u8 = if v < 0 {
                0
            } else if v > 255 {
                255
            } else {
                v as u8
            };
            let ghost base = pixels@.len() as int;
            proof {
                assert(base == (y * width + x) * 4);
                assert((base / 4) == y * width + x) by (nonlinear_arith)
                    requires
                        base == (y * width + x) * 4;
                assert((y * width + x) % (width as int) == x as int) by (nonlinear_arith)
                    requires
                        x < width,
                        0 < width;
                assert(base % 4 == 0 && (base + 1) % 4 == 1 && (base + 2) % 4 == 2 && (base + 3) % 4 == 3
                    && (base + 1) / 4 == base / 4 && (base + 2) / 4 == base / 4 && (base + 3) / 4 == base / 4) by (nonlinear_arith)
                    requires
                        base == (y * width + x) * 4;
            }
            pixels.push(red);
            pixels.push(g);
            pixels.push(b);
            pixels.push(255);
            x = x + 1;
            proof {
                assert((y * width + x) * 4 == base + 4) by (nonlinear_arith)
                    requires
                        base == (y * width + (x - 1)) * 4;
            }
        }
        y = y + 1;
        proof {
            assert((y - 1) * width + width == y * width) by (nonlinear_arith);
        }
    }
    pixels
}

impl DestinationState {
    /// Not capturing, no frame, highlights lasting half a second.
    pub fn new() -> (r: Self)
        ensures
            !r.has_frame,
            !r.has_test_pattern,
            r.frame_size == (0u32, 0u32),
            !r.show_debug,
            r.frame_count == 0,
            !r.is_capturing,
            !r.stop_requested,
            r.click_highlights@ == Seq::<ClickHighlight>::empty(),
            r.capture_region is None,
            r.click_highlight_duration_ms == DEFAULT_HIGHLIGHT_MS,
    {
        DestinationState {
            has_frame: false,
            has_test_pattern: false,
            frame_size: (0, 0),
            show_debug: false,
            frame_count: 0,
            is_capturing: false,
            stop_requested: false,
            click_highlights: Vec::new(),
            capture_region: None,
            click_highlight_duration_ms: DEFAULT_HIGHLIGHT_MS,
        }
    }

    /// Start or stop capturing; starting resets the frame count and any
    /// stop request.
    pub fn set_capturing(&mut self, capturing: bool)
        ensures
            final(self)@ == (DestinationView {
                is_capturing: capturing,
                frame_count: if capturing { 0 } else { old(self).frame_count },
                stop_requested: if capturing { false } else { old(self).stop_requested },
                ..old(self)@
            }),
    {
        self.is_capturing = capturing;
        if capturing {
            self.frame_count = 0;
            self.stop_requested = false;
        }
    }

    /// Whether a stop was requested; the request is consumed.
    pub fn take_stop_request(&mut self) -> (r: bool)
        ensures
            r == old(self).stop_requested,
            final(self)@ == (DestinationView { stop_requested: false, ..old(self)@ }),
    {
        let requested = self.stop_requested;
        self.stop_requested = false;
        requested
    }

    /// Ask to stop (from the keyboard); only while capturing.
    pub fn request_stop(&mut self)
        ensures
            final(self)@ == (DestinationView {
                stop_requested: old(self).stop_requested || old(self).is_capturing,
                ..old(self)@
            }),
    {
        if self.is_capturing {
            self.stop_requested = true;
        }
    }

    /// The STOP button was clicked.
    pub fn stop_clicked(&mut self)
        ensures
            final(self)@ == (DestinationView { stop_requested: true, ..old(self)@ }),
    {
        self.stop_requested = true;
    }

    /// Remember the capture region, for placing highlights.
    pub fn set_capture_region(&mut self, x: i32, y: i32, width: u32, height: u32)
        ensures
            final(self)@ == (DestinationView { capture_region: Some((x, y, width, height)), ..old(self)@ }),
    {
        self.capture_region = Some((x, y, width, height));
    }

    /// Add highlights for new clicks, in one colour.
    pub fn add_click_highlights(&mut self, new_clicks: Vec<(i32, i32, u64, bool)>, color: [u8; 4])
        ensures
            final(self)@ == (DestinationView {
                click_highlights: old(self)@.click_highlights + new_highlights(new_clicks@, color),
                ..old(self)@
            }),
    {
        let mut i: usize = 0;
        while i < new_clicks.len()
            invariant
                0 <= i <= new_clicks@.len(),
                self@ == (DestinationView {
                    click_highlights: old(self)@.click_highlights + new_highlights(new_clicks@.take(i as int), color),
                    ..old(self)@
                }),
            decreases new_clicks.len() - i,
        {
            let c = new_clicks[i];
            self.click_highlights.push(ClickHighlight { x: c.0, y: c.1, timestamp_ms: c.2, is_left: c.3, color });
            assert(new_highlights(new_clicks@.take(i + 1), color) =~= new_highlights(new_clicks@.take(i as int), color).push(
                ClickHighlight { x: c.0, y: c.1, timestamp_ms: c.2, is_left: c.3, color },
            ));
            i = i + 1;
        }
        assert(new_clicks@.take(new_clicks@.len() as int) =~= new_clicks@);
    }

    /// Drop the highlights that have lasted their duration at `now_ms`.
    pub fn update_click_highlights(&mut self, now_ms: u64)
        ensures
            final(self)@ == (DestinationView {
                click_highlights: old(self)@.click_highlights.filter(
                    |h: ClickHighlight| highlight_live(h, now_ms, old(self).click_highlight_duration_ms),
                ),
                ..old(self)@
            }),
    {
        let duration = self.click_highlight_duration_ms;
        let ghost all = self.click_highlights@;
        let ghost pred = |h: ClickHighlight| highlight_live(h, now_ms, duration);
        let mut kept: Vec<ClickHighlight> = Vec::new();
        let mut i: usize = 0;
        while i < self.click_highlights.len()
            invariant
                0 <= i <= self.click_highlights@.len(),
                self.click_highlights@ == all,
                kept@ == all.take(i as int).filter(pred),
                pred == (|h: ClickHighlight| highlight_live(h, now_ms, duration)),
            decreases self.click_highlights.len() - i,
        {
            let h = self.click_highlights[i];
            proof {
                lemma_filter_take_step(all, i as int, pred);
            }
            let age: u64 = if now_ms > h.timestamp_ms {
                now_ms - h.timestamp_ms
            } else {
                0
            };
            if age < duration as u64 {
                kept.push(h);
            }
            i = i + 1;
        }
        proof {
            lemma_take_full(all);
        }
        self.click_highlights = kept;
    }

    /// Set how long highlights last.
    pub fn set_click_highlight_duration(&mut self, duration_ms: u32)
        ensures
            final(self)@ == (DestinationView { click_highlight_duration_ms: duration_ms, ..old(self)@ }),
    {
        self.click_highlight_duration_ms = duration_ms;
    }

    /// Forget every highlight.
    pub fn clear_click_highlights(&mut self)
        ensures
            final(self)@ == (DestinationView { click_highlights: Seq::<ClickHighlight>::empty(), ..old(self)@ }),
    {
        self.click_highlights.clear();
    }

    /// Show or hide the debug overlay.
    pub fn toggle_debug(&mut self)
        ensures
            final(self)@ == (DestinationView { show_debug: !old(self).show_debug, ..old(self)@ }),
    {
        self.show_debug = !self.show_debug;
    }

    /// Forget the current frame.
    pub fn clear_frame(&mut self)
        ensures
            final(self)@ == (DestinationView { has_frame: false, frame_size: (0u32, 0u32), ..old(self)@ }),
    {
        self.has_frame = false;
        self.frame_size = (0, 0);
    }

    /// Take a new captured frame (BGRA); returns its pixels as RGBA for the
    /// texture.
    pub fn update_frame(&mut self, data: &Vec<u8>, width: u32, height: u32) -> (r: Vec<u8>)
        requires
            old(self).frame_count < u64::MAX,
        ensures
            final(self)@ == (DestinationView {
                frame_count: (old(self).frame_count + 1) as u64,
                frame_size: (width, height),
                has_frame: true,
                ..old(self)@
            }),
            r@ == bgra_to_rgba_spec(data@),
    {
        self.frame_count = self.frame_count + 1;
        self.frame_size = (width, height);
        self.has_frame = true;
        bgra_to_rgba(data)
    }

    /// Decide what a redraw shows. Capturing without a frame makes the test
    /// pattern (320 by 240) where there is none yet, and counts a frame.
    pub fn begin_show(&mut self) -> (r: ShownContent)
        requires
            old(self).frame_count < u64::MAX,
        ensures
            final(self)@ == (if old(self).is_capturing && !old(self).has_frame {
                DestinationView {
                    has_test_pattern: true,
                    frame_count: (old(self).frame_count + 1) as u64,
                    frame_size: if old(self).has_test_pattern {
                        old(self).frame_size
                    } else {
                        (TEST_PATTERN_WIDTH as u32, TEST_PATTERN_HEIGHT as u32)
                    },
                    ..old(self)@
                }
            } else {
                old(self)@
            }),
            r == (if old(self).has_frame {
                ShownContent::Frame
            } else if old(self).is_capturing {
                ShownContent::TestPattern
            } else {
                ShownContent::Placeholder
            }),
    {
        if self.is_capturing && !self.has_frame {
            if !self.has_test_pattern {
                self.has_test_pattern = true;
                self.frame_size = (TEST_PATTERN_WIDTH as u32, TEST_PATTERN_HEIGHT as u32);
            }
            self.frame_count = self.frame_count + 1;
        }
        if self.has_frame {
            ShownContent::Frame
        } else if self.is_capturing {
            ShownContent::TestPattern
        } else {
            ShownContent::Placeholder
        }
    }

    /// Whether every highlight's offset from the capture region fits in 32
    /// bits (always where no region is known).
    pub fn highlight_offsets_fit(&self) -> (r: bool)
        ensures
            r == match self.capture_region {
                Some(region) => offsets_fit(self.click_highlights@, region),
                None => true,
            },
    {
        match self.capture_region {
            None => true,
            Some(region) => {
                let mut i: usize = 0;
                while i < self.click_highlights.len()
                    invariant
                        0 <= i <= self.click_highlights@.len(),
                        self.capture_region == Some(region),
                        offsets_fit(self.click_highlights@.take(i as int), region),
                    decreases self.click_highlights.len() - i,
                {
                    let h = self.click_highlights[i];
                    let dx = h.x as i64 - region.0 as i64;
                    let dy = h.y as i64 - region.1 as i64;
                    if dx < i32::MIN as i64 || dx > i32::MAX as i64 || dy < i32::MIN as i64 || dy > i32::MAX as i64 {
                        assert(self.click_highlights@[i as int] == h);
                        assert(!(i32::MIN <= self.click_highlights@[i as int].x - region.0 <= i32::MAX
                            && i32::MIN <= self.click_highlights@[i as int].y - region.1 <= i32::MAX));
                        return false;
                    }
                    assert forall|k: int| 0 <= k < i + 1 implies i32::MIN <= #[trigger] self.click_highlights@.take(
                        i + 1,
                    )[k].x - region.0 <= i32::MAX && i32::MIN <= self.click_highlights@.take(i + 1)[k].y - region.1
                        <= i32::MAX by {
                        if k < i {
                            assert(self.click_highlights@.take(i + 1)[k] == self.click_highlights@.take(i as int)[k]);
                        }
                    }
                    i = i + 1;
                }
                assert(self.click_highlights@.take(self.click_highlights@.len() as int) =~= self.click_highlights@);
                true
            },
        }
    }

    /// The highlights to draw: with a known region, those inside it, each
    /// with its offset in the region; none without a region.
    pub fn visible_highlights(&self) -> (r: Vec<(ClickHighlight, (i32, i32))>)
        requires
            self.capture_region matches Some(region) ==> offsets_fit(self.click_highlights@, region),
        ensures
            r@ == match self.capture_region {
                Some(region) => drawn_highlights(self.click_highlights@, region),
                None => Seq::empty(),
            },
    {
        let mut out: Vec<(ClickHighlight, (i32, i32))> = Vec::new();
        match self.capture_region {
            None => out,
            Some(region) => {
                let hs = &self.click_highlights;
                let mut i: usize = 0;
                while i < hs.len()
                    invariant
                        0 <= i <= hs@.len(),
                        offsets_fit(hs@, region),
                        out@ == drawn_highlights(hs@.take(i as int), region),
                    decreases hs.len() - i,
                {
                    let h = hs[i];
                    assert(hs@.take(i + 1).drop_last() =~= hs@.take(i as int));
                    assert(i32::MIN <= hs@[i as int].x - region.0 <= i32::MAX);
                    let rel_x = h.x - region.0;
                    let rel_y = h.y - region.1;
                    if rel_x >= 0 && rel_y >= 0 && rel_x < region.2 as i32 && rel_y < region.3 as i32 {
                        out.push((h, (rel_x, rel_y)));
                    }
                    i = i + 1;
                }
                assert(hs@.take(hs@.len() as int) =~= hs@);
                out
            },
        }
    }
}

/// RGBA from BGRA pixels, four bytes at a time.
pub fn bgra_to_rgba(data: &Vec<u8>) -> (r: Vec<u8>)
    ensures
        r@ == bgra_to_rgba_spec(data@),
{
    let len = data.len();
    let n = len / 4;
    let mut out: Vec<u8> = Vec::new();
    let mut p: usize = 0;
    while p < n
        invariant
            0 <= p <= n == data@.len() / 4,
            len == data@.len(),
            out@.len() == p * 4,
            forall|i: int| 0 <= i < out@.len() ==> #[trigger] out@[i] == bgra_to_rgba_spec(data@)[i],
        decreases n - p,
    {
        assert(p * 4 < data@.len()) by (nonlinear_arith)
            requires
                p < n,
                n == len / 4,
                len == data@.len();
        let base = p * 4;
        proof {
            assert(base + 3 < data@.len()) by (nonlinear_arith)
                requires
                    base == p * 4,
                    p < n,
                    n == data@.len() / 4;
            assert(bgra_to_rgba_spec(data@).len() == n * 4) by (nonlinear_arith)
                requires
                    n == data@.len() / 4;
        }
        out.push(data[base + 2]);
        out.push(data[base + 1]);
        out.push(data[base]);
        out.push(data[base + 3]);
        proof {
            assert forall|i: int| 0 <= i < out@.len() implies #[trigger] out@[i] == bgra_to_rgba_spec(data@)[i] by {
                if i >= base {
                    assert(i - i % 4 == base && i % 4 == i - base) by (nonlinear_arith)
                        requires
                            base <= i < base + 4,
                            base == p * 4;
                }
            }
        }
        p = p + 1;
    }
    proof {
        assert(bgra_to_rgba_spec(data@).len() == n * 4) by (nonlinear_arith)
            requires
                n == data@.len() / 4;
        assert(out@ =~= bgra_to_rgba_spec(data@));
    }
    out
}

/// Converting a pixel's BGRA bytes to RGBA swaps blue and red and keeps
/// green and alpha: converting twice gives the pixels back.
pub proof fn lemma_bgra_round_trip(data: Seq<u8>)
    requires
        data.len() % 4 == 0,
    ensures
        bgra_to_rgba_spec(bgra_to_rgba_spec(data)) == data,
{
    let once = bgra_to_rgba_spec(data);
    let twice = bgra_to_rgba_spec(once);
    assert(data.len() / 4 * 4 == data.len()) by (nonlinear_arith)
        requires
            data.len() % 4 == 0;
    assert forall|i: int| 0 <= i < data.len() implies #[trigger] twice[i] == data[i] by {
        let base = i - i % 4;
        assert(0 <= base && base + 3 < data.len() && (base + 2) % 4 == 2 && (base + 2) - (base + 2) % 4 == base
            && base % 4 == 0 && base - base % 4 == base) by (nonlinear_arith)
            requires
                0 <= i < data.len(),
                data.len() % 4 == 0,
                base == i - i % 4;
    }
    assert(twice =~= data);
}

} // verus!
