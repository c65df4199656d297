//! Application settings of the main window: presets for the capture
//! region's size and place, border and click-highlight colours, and the
//! rules by which the settings dialog edits them.
use vstd::prelude::*;
use crate::text::{
    chars_of, dec_digits, hex_byte_text, hex_pair_spec, parse_hex_pair, parse_i32, parse_i32_spec, parse_u32,
    parse_u32_spec, push_char, push_hex_byte,
};

verus! {

/// Width of the region when no preset applies.
pub const DEFAULT_WIDTH: u32 = 800;

/// Height of the region when no preset applies.
pub const DEFAULT_HEIGHT: u32 = 600;

/// Smallest custom width the dialog accepts.
pub const MIN_WIDTH: u32 = 320;

/// Smallest custom height the dialog accepts.
pub const MIN_HEIGHT: u32 = 240;

/// Distance of a corner preset from the screen edges.
pub const POSITION_MARGIN: i32 = 50;

/// Highest frame rate the dialog offers, whatever the monitor.
pub const MAX_TARGET_FPS: u32 = 240;

/// Tabs of the settings window.
#[derive(Debug, Clone, Copy, PartialEq, Eq, Structural)]
pub enum SettingsTab {
    General,
    Window,
    Capture,
    Advanced,
}

impl Default for SettingsTab {
    fn default() -> (r: Self)
        ensures
            r == SettingsTab::General,
    {
        SettingsTab::General
    }
}

impl SettingsTab {
    /// Every tab, in display order.
    pub fn all() -> (r: Vec<SettingsTab>)
        ensures
            r@ == seq![
                SettingsTab::General,
                SettingsTab::Window,
                SettingsTab::Capture,
                SettingsTab::Advanced,
            ],
    {
        let r = vec![SettingsTab::General, SettingsTab::Window, SettingsTab::Capture, SettingsTab::Advanced];
        assert(r@ =~= seq![
            SettingsTab::General,
            SettingsTab::Window,
            SettingsTab::Capture,
            SettingsTab::Advanced,
        ]);
        r
    }

    /// The tab's title.
    pub fn label(&self) -> (r: &'static str)
        ensures
            r@ == match *self {
                SettingsTab::General => "General"@,
                SettingsTab::Window => "Window"@,
                SettingsTab::Capture => "Capture"@,
                SettingsTab::Advanced => "Advanced"@,
            },
    {
        match self {
            SettingsTab::General => "General",
            SettingsTab::Window => "Window",
            SettingsTab::Capture => "Capture",
            SettingsTab::Advanced => "Advanced",
        }
    }

    /// The tab's short marker.
    pub fn icon(&self) -> (r: &'static str)
        ensures
            r@ == match *self {
                SettingsTab::General => "[G]"@,
                SettingsTab::Window => "[W]"@,
                SettingsTab::Capture => "[C]"@,
                SettingsTab::Advanced => "[A]"@,
            },
    {
        match self {
            SettingsTab::General => "[G]",
            SettingsTab::Window => "[W]",
            SettingsTab::Capture => "[C]",
            SettingsTab::Advanced => "[A]",
        }
    }
}

/// Where the region window is placed.
#[derive(Debug, Clone, Copy, PartialEq, Eq, Structural)]
pub enum PositionPreset {
    Center,
    TopLeft,
    TopRight,
    BottomLeft,
    BottomRight,
    Custom,
}

impl Default for PositionPreset {
    fn default() -> (r: Self)
        ensures
            r == PositionPreset::Center,
    {
        PositionPreset::Center
    }
}

/// Integer division rounding toward zero, as Rust's `/` on signed integers.
pub open spec fn div_trunc(a: int, b: int) -> int
    recommends
        b > 0,
{
    if a >= 0 {
        a / b
    } else {
        -((-a) / b)
    }
}

/// The top-left corner of a window of the given size under a preset, on a
/// screen of the given size.
pub open spec fn position_spec(
    p: PositionPreset,
    window_width: int,
    window_height: int,
    custom_x: int,
    custom_y: int,
    screen_width: int,
    screen_height: int,
) -> (int, int) {
    let m = POSITION_MARGIN as int;
    match p {
        PositionPreset::Center => (
            div_trunc(screen_width - window_width, 2),
            div_trunc(screen_height - window_height, 2),
        ),
        PositionPreset::TopLeft => (m, m),
        PositionPreset::TopRight => (screen_width - window_width - m, m),
        PositionPreset::BottomLeft => (m, screen_height - window_height - m),
        PositionPreset::BottomRight => (
            screen_width - window_width - m,
            screen_height - window_height - m,
        ),
        PositionPreset::Custom => (custom_x, custom_y),
    }
}

/// Sizes for which the placement arithmetic stays within 32 bits.
pub open spec fn position_inputs_ok(
    window_width: u32,
    window_height: u32,
    screen_width: u32,
    screen_height: u32,
) -> bool {
    &&& window_width <= i32::MAX
    &&& window_height <= i32::MAX
    &&& screen_width <= i32::MAX
    &&& screen_height <= i32::MAX
    &&& screen_width - window_width - POSITION_MARGIN >= i32::MIN
    &&& screen_height - window_height - POSITION_MARGIN >= i32::MIN
}

impl PositionPreset {
    /// Every preset, in display order.
    pub fn all() -> (r: Vec<Self>)
        ensures
            r@ == seq![
                PositionPreset::Center,
                PositionPreset::TopLeft,
                PositionPreset::TopRight,
                PositionPreset::BottomLeft,
                PositionPreset::BottomRight,
                PositionPreset::Custom,
            ],
    {
        let r = vec![
            PositionPreset::Center,
            PositionPreset::TopLeft,
            PositionPreset::TopRight,
            PositionPreset::BottomLeft,
            PositionPreset::BottomRight,
            PositionPreset::Custom,
        ];
        assert(r@ =~= seq![
            PositionPreset::Center,
            PositionPreset::TopLeft,
            PositionPreset::TopRight,
            PositionPreset::BottomLeft,
            PositionPreset::BottomRight,
            PositionPreset::Custom,
        ]);
        r
    }

    /// The top-left corner of a window of the given size on a screen of the
    /// given size: centred, in a corner 50 pixels from the edges, or the
    /// custom point.
    pub fn calculate(
        &self,
        window_width: u32,
        window_height: u32,
        custom_x: i32,
        custom_y: i32,
        screen_width: u32,
        screen_height: u32,
    ) -> (r: (i32, i32))
        requires
            position_inputs_ok(window_width, window_height, screen_width, screen_height),
        ensures
            (r.0 as int, r.1 as int) == position_spec(
                *self,
                window_width as int,
                window_height as int,
                custom_x as int,
                custom_y as int,
                screen_width as int,
                screen_height as int,
            ),
    {
        let sw = screen_width as i32;
        let sh = screen_height as i32;
        let ww = window_width as i32;
        let wh = window_height as i32;
        let margin = POSITION_MARGIN;
        match self {
            PositionPreset::Center => ((sw - ww) / 2, (sh - wh) / 2),
            PositionPreset::TopLeft => (margin, margin),
            PositionPreset::TopRight => (sw - ww - margin, margin),
            PositionPreset::BottomLeft => (margin, sh - wh - margin),
            PositionPreset::BottomRight => (sw - ww - margin, sh - wh - margin),
            PositionPreset::Custom => (custom_x, custom_y),
        }
    }

    /// The preset's display name.
    pub fn name(&self) -> (r: &'static str)
        ensures
            r@ == match *self {
                PositionPreset::Center => "Center"@,
                PositionPreset::TopLeft => "Top Left"@,
                PositionPreset::TopRight => "Top Right"@,
                PositionPreset::BottomLeft => "Bottom Left"@,
                PositionPreset::BottomRight => "Bottom Right"@,
                PositionPreset::Custom => "Custom"@,
            },
    {
        match self {
            PositionPreset::Center => "Center",
            PositionPreset::TopLeft => "Top Left",
            PositionPreset::TopRight => "Top Right",
            PositionPreset::BottomLeft => "Bottom Left",
            PositionPreset::BottomRight => "Bottom Right",
            PositionPreset::Custom => "Custom",
        }
    }
}

/// Size presets of the region window.
#[derive(Debug, Clone, Copy, PartialEq, Eq, Structural)]
pub enum SizePreset {
    W720p,
    W1080p,
    W1440p,
    W4K,
    Square,
    Custom,
}

/// The (width, height) of a size preset.
pub open spec fn preset_dimensions(p: SizePreset) -> (u32, u32) {
    match p {
        SizePreset::W720p => (1280, 720),
        SizePreset::W1080p => (1920, 1080),
        SizePreset::W1440p => (2560, 1440),
        SizePreset::W4K => (3840, 2160),
        SizePreset::Square => (1080, 1080),
        SizePreset::Custom => (DEFAULT_WIDTH, DEFAULT_HEIGHT),
    }
}

/// The display name of a size preset.
pub open spec fn size_preset_name(p: SizePreset) -> Seq<char> {
    match p {
        SizePreset::W720p => "720p (1280x720)"@,
        SizePreset::W1080p => "1080p (1920x1080)"@,
        SizePreset::W1440p => "1440p (2560x1440)"@,
        SizePreset::W4K => "4K (3840x2160)"@,
        SizePreset::Square => "Square (1080x1080)"@,
        SizePreset::Custom => "Custom"@,
    }
}

impl SizePreset {
    /// The (width, height) of the preset; `Custom` gives the default size.
    pub fn dimensions(&self) -> (r: (u32, u32))
        ensures
            r == preset_dimensions(*self),
    {
        match self {
            SizePreset::W720p => (1280, 720),
            SizePreset::W1080p => (1920, 1080),
            SizePreset::W1440p => (2560, 1440),
            SizePreset::W4K => (3840, 2160),
            SizePreset::Square => (1080, 1080),
            SizePreset::Custom => (DEFAULT_WIDTH, DEFAULT_HEIGHT),
        }
    }

    /// Every preset, in display order.
    pub fn all() -> (r: Vec<Self>)
        ensures
            r@ == seq![
                SizePreset::W720p,
                SizePreset::W1080p,
                SizePreset::W1440p,
                SizePreset::W4K,
                SizePreset::Square,
                SizePreset::Custom,
            ],
    {
        let r = vec![
            SizePreset::W720p,
            SizePreset::W1080p,
            SizePreset::W1440p,
            SizePreset::W4K,
            SizePreset::Square,
            SizePreset::Custom,
        ];
        assert(r@ =~= seq![
            SizePreset::W720p,
            SizePreset::W1080p,
            SizePreset::W1440p,
            SizePreset::W4K,
            SizePreset::Square,
            SizePreset::Custom,
        ]);
        r
    }

    /// The preset's display name.
    pub fn name(&self) -> (r: &'static str)
        ensures
            r@ == size_preset_name(*self),
    {
        match self {
            SizePreset::W720p => "720p (1280x720)",
            SizePreset::W1080p => "1080p (1920x1080)",
            SizePreset::W1440p => "1440p (2560x1440)",
            SizePreset::W4K => "4K (3840x2160)",
            SizePreset::Square => "Square (1080x1080)",
            SizePreset::Custom => "Custom",
        }
    }
}

/// Application settings.
#[derive(Debug, Clone, Copy)]
pub struct Settings {
    pub show_cursor: bool,
    pub capture_clicks: bool,
    /// Click highlight colour, RGBA.
    pub click_highlight_color: [u8; 4],
    pub click_dissolve_ms: u32,
    /// Border colour, RGB.
    pub border_color: [u8; 3],
    pub border_width: u32,
    pub target_fps: u32,
    pub use_gpu: bool,
    pub monitor_hz: u32,
    pub size_preset: SizePreset,
    pub custom_width: u32,
    pub custom_height: u32,
    pub position_preset: PositionPreset,
    pub custom_x: i32,
    pub custom_y: i32,
    pub save_last_position: bool,
    pub remember_region: bool,
    pub auto_start: bool,
    pub show_shortcuts: bool,
    pub last_window_x: i32,
    pub last_window_y: i32,
}

/// Monitor refresh rate assumed when a settings file has none.
pub fn default_monitor_hz() -> (r: u32)
    ensures
        r == 60,
{
    60
}

/// Custom x position assumed when a settings file has none.
pub fn default_custom_x() -> (r: i32)
    ensures
        r == 100,
{
    100
}

/// Custom y position assumed when a settings file has none.
pub fn default_custom_y() -> (r: i32)
    ensures
        r == 100,
{
    100
}

/// The region size that settings select.
pub open spec fn current_size_spec(s: Settings) -> (u32, u32) {
    match s.size_preset {
        SizePreset::Custom => (s.custom_width, s.custom_height),
        p => preset_dimensions(p),
    }
}

/// The border colour as a Windows BGR value 0x00BBGGRR, from RGB bytes.
pub open spec fn bgr_spec(c: [u8; 3]) -> u32 {
    (c[2] + 256 * c[1] + 65536 * c[0]) as u32
}

/// Characters after every leading '#' is taken off.
pub open spec fn strip_hashes(s: Seq<char>) -> Seq<char>
    decreases s.len(),
{
    if s.len() > 0 && s[0] == '#' {
        strip_hashes(s.drop_first())
    } else {
        s
    }
}

/// The RGB colour that a "#RRGGBB" text gives (any number of leading '#'),
/// or `None`.
pub open spec fn border_hex_spec(hex: Seq<char>) -> Option<[u8; 3]> {
    let t = strip_hashes(hex);
    if t.len() == 6 && hex_pair_spec(t[0], t[1]) is Some && hex_pair_spec(t[2], t[3]) is Some
        && hex_pair_spec(t[4], t[5]) is Some {
        Some([hex_pair_spec(t[0], t[1])->0, hex_pair_spec(t[2], t[3])->0, hex_pair_spec(t[4], t[5])->0])
    } else {
        None
    }
}

/// The "#RRGGBB" text of a colour, in upper-case hexadecimal.
pub open spec fn border_hex_text(c: [u8; 3]) -> Seq<char> {
    seq!['#'] + hex_byte_text(c[0]) + hex_byte_text(c[1]) + hex_byte_text(c[2])
}

/// Characters with every leading '#' taken off.
pub fn trim_hashes(s: &str) -> (r: Vec<char>)
    ensures
        r@ == strip_hashes(s@),
{
    let all = chars_of(s);
    let mut start: usize = 0;
    assert(all@.skip(0) =~= all@);
    while start < all.len() && all[start] == '#'
        invariant
            0 <= start <= all@.len(),
            strip_hashes(all@) == strip_hashes(all@.skip(start as int)),
        decreases all.len() - start,
    {
        proof {
            assert(all@.skip(start as int).drop_first() =~= all@.skip(start + 1));
            assert(all@.skip(start as int)[0] == all@[start as int]);
        }
        start = start + 1;
    }
    let mut out: Vec<char> = Vec::new();
    let mut i: usize = start;
    while i < all.len()
        invariant
            start <= i <= all@.len(),
            out@ == all@.subrange(start as int, i as int),
        decreases all.len() - i,
    {
        out.push(all[i]);
        proof {
            assert(all@.subrange(start as int, i + 1) =~= all@.subrange(start as int, i as int).push(
                all@[i as int],
            ));
        }
        i = i + 1;
    }
    proof {
        assert(all@.subrange(start as int, all@.len() as int) =~= all@.skip(start as int));
        let t = all@.skip(start as int);
        if t.len() > 0 {
            assert(t[0] == all@[start as int]);
        }
    }
    out
}

impl Settings {
    /// The settings of a first start; `monitor_hz` is the refresh rate the
    /// monitor reports.
    pub fn new_default(monitor_hz: u32) -> (r: Self)
        ensures
            r == (Settings {
                show_cursor: true,
                capture_clicks: false,
                click_highlight_color: [255, 255, 0, 180],
                click_dissolve_ms: 300,
                border_color: [80, 130, 255],
                border_width: 4,
                target_fps: 60,
                use_gpu: true,
                monitor_hz,
                size_preset: SizePreset::Custom,
                custom_width: DEFAULT_WIDTH,
                custom_height: DEFAULT_HEIGHT,
                position_preset: PositionPreset::Center,
                custom_x: 100,
                custom_y: 100,
                save_last_position: true,
                remember_region: false,
                auto_start: false,
                show_shortcuts: true,
                last_window_x: 100,
                last_window_y: 100,
            }),
    {
        Settings {
            show_cursor: true,
            capture_clicks: false,
            click_highlight_color: [255, 255, 0, 180],
            click_dissolve_ms: 300,
            border_color: [80, 130, 255],
            border_width: 4,
            target_fps: 60,
            use_gpu: true,
            monitor_hz,
            size_preset: SizePreset::Custom,
            custom_width: DEFAULT_WIDTH,
            custom_height: DEFAULT_HEIGHT,
            position_preset: PositionPreset::Center,
            custom_x: 100,
            custom_y: 100,
            save_last_position: true,
            remember_region: false,
            auto_start: false,
            show_shortcuts: true,
            last_window_x: 100,
            last_window_y: 100,
        }
    }

    /// The region size: the custom size under the custom preset, otherwise
    /// the preset's own size.
    pub fn current_size(&self) -> (r: (u32, u32))
        ensures
            r == current_size_spec(*self),
    {
        match self.size_preset {
            SizePreset::Custom => (self.custom_width, self.custom_height),
            preset => preset.dimensions(),
        }
    }

    /// Width of the region that these settings select.
    pub fn get_effective_width(&self) -> (r: u32)
        ensures
            r == current_size_spec(*self).0,
    {
        self.current_size().0
    }

    /// Height of the region that these settings select.
    pub fn get_effective_height(&self) -> (r: u32)
        ensures
            r == current_size_spec(*self).1,
    {
        self.current_size().1
    }

    /// The border colour as a Windows BGR value 0x00BBGGRR.
    pub fn border_color_bgr(&self) -> (r: u32)
        ensures
            r == bgr_spec(self.border_color),
    {
        let red = self.border_color[0] as u32;
        let green = self.border_color[1] as u32;
        let blue = self.border_color[2] as u32;
        assert(blue | (green << 8) | (red << 16) == blue + 256 * green + 65536 * red) by (bit_vector)
            requires
                red < 256,
                green < 256,
                blue < 256,
        ;
        blue | (green << 8) | (red << 16)
    }

    /// The border colour as "#RRGGBB" in upper-case hexadecimal.
    pub fn border_color_hex(&self) -> (r: String)
        ensures
            r@ == border_hex_text(self.border_color),
    {
        let mut s = String::new();
        push_char(&mut s, '#');
        push_hex_byte(&mut s, self.border_color[0]);
        push_hex_byte(&mut s, self.border_color[1]);
        push_hex_byte(&mut s, self.border_color[2]);
        assert(s@ =~= border_hex_text(self.border_color));
        s
    }

    /// Set the border colour from "#RRGGBB" (leading '#' optional); returns
    /// whether the text was a colour. The colour is left alone otherwise.
    pub fn set_border_color_from_hex(&mut self, hex: &str) -> (r: bool)
        ensures
            r == border_hex_spec(hex@) is Some,
            r ==> *final(self) == (Settings { border_color: border_hex_spec(hex@)->0, ..*old(self) }),
            !r ==> *final(self) == *old(self),
    {
        let t = trim_hashes(hex);
        if t.len() != 6 {
            return false;
        }
        let red = parse_hex_pair(t[0], t[1]);
        let green = parse_hex_pair(t[2], t[3]);
        let blue = parse_hex_pair(t[4], t[5]);
        match (red, green, blue) {
            (Some(r), Some(g), Some(b)) => {
                self.border_color = [r, g, b];
                assert(self.border_color =~= border_hex_spec(hex@)->0);
                true
            },
            _ => false,
        }
    }
}

/// The click colour after reading "#RRGGBB" or "#RRGGBBAA" (leading '#'
/// optional): red, green and blue change when the first six digits are a
/// colour, and alpha too when two more digits follow.
pub open spec fn click_hex_spec(hex: Seq<char>, old_color: [u8; 4]) -> [u8; 4] {
    let t = strip_hashes(hex);
    if t.len() >= 6 && hex_pair_spec(t[0], t[1]) is Some && hex_pair_spec(t[2], t[3]) is Some
        && hex_pair_spec(t[4], t[5]) is Some {
        let a = if t.len() >= 8 && hex_pair_spec(t[6], t[7]) is Some {
            hex_pair_spec(t[6], t[7])->0
        } else {
            old_color[3]
        };
        [hex_pair_spec(t[0], t[1])->0, hex_pair_spec(t[2], t[3])->0, hex_pair_spec(t[4], t[5])->0, a]
    } else {
        old_color
    }
}

/// A change that the settings dialog makes to the settings it edits.
#[derive(Debug, Clone)]
pub enum SettingsMessage {
    SetShowCursor(bool),
    SetCaptureClicks(bool),
    SetClickHighlightR(u8),
    SetClickHighlightG(u8),
    SetClickHighlightB(u8),
    SetClickHighlightAlpha(u8),
    SetClickDissolveMs(u32),
    SetClickHighlightHex(String),
    SetClickHighlightColor([u8; 4]),
    SetBorderWidth(u32),
    SetBorderColorR(u8),
    SetBorderColorG(u8),
    SetBorderColorB(u8),
    SetBorderColorHex(String),
    SetTargetFps(u32),
    SetUseGpu(bool),
    SetSizePreset(SizePreset),
    SetCustomWidth(String),
    SetCustomHeight(String),
    SetPositionPreset(PositionPreset),
    SetCustomX(String),
    SetCustomY(String),
    SetSaveLastPosition(bool),
    SetRememberRegion(bool),
    SetAutoStart(bool),
    SetShowShortcuts(bool),
}

/// An RGBA colour with one channel replaced.
pub open spec fn with_channel4(c: [u8; 4], k: int, v: u8) -> [u8; 4] {
    [
        if k == 0 { v } else { c[0] },
        if k == 1 { v } else { c[1] },
        if k == 2 { v } else { c[2] },
        if k == 3 { v } else { c[3] },
    ]
}

/// An RGB colour with one channel replaced.
pub open spec fn with_channel3(c: [u8; 3], k: int, v: u8) -> [u8; 3] {
    [if k == 0 { v } else { c[0] }, if k == 1 { v } else { c[1] }, if k == 2 { v } else { c[2] }]
}

/// The frame rate the dialog stores for a requested rate: at most the
/// monitor's rate, and at most 240.
pub open spec fn clamp_fps_spec(requested: u32, monitor_hz: u32) -> u32 {
    let max_fps = if monitor_hz < MAX_TARGET_FPS { monitor_hz } else { MAX_TARGET_FPS };
    if requested < max_fps { requested } else { max_fps }
}

/// Which messages the dialog can apply without a Rust panic, on these settings.
pub open spec fn message_ok(s: Settings, m: SettingsMessage, screen_width: u32, screen_height: u32) -> bool {
    match m {
        SettingsMessage::SetPositionPreset(p) => p == PositionPreset::Custom || position_inputs_ok(
            current_size_spec(s).0,
            current_size_spec(s).1,
            screen_width,
            screen_height,
        ),
        _ => true,
    }
}

/// The settings after one message of the settings dialog.
pub open spec fn apply_message_spec(
    s: Settings,
    m: SettingsMessage,
    monitor_hz: u32,
    screen_width: u32,
    screen_height: u32,
) -> Settings {
    match m {
        SettingsMessage::SetShowCursor(v) => Settings { show_cursor: v, ..s },
        SettingsMessage::SetCaptureClicks(v) => Settings { capture_clicks: v, ..s },
        SettingsMessage::SetClickHighlightR(v) => Settings {
            click_highlight_color: with_channel4(s.click_highlight_color, 0, v),
            ..s
        },
        SettingsMessage::SetClickHighlightG(v) => Settings {
            click_highlight_color: with_channel4(s.click_highlight_color, 1, v),
            ..s
        },
        SettingsMessage::SetClickHighlightB(v) => Settings {
            click_highlight_color: with_channel4(s.click_highlight_color, 2, v),
            ..s
        },
        SettingsMessage::SetClickHighlightAlpha(v) => Settings {
            click_highlight_color: with_channel4(s.click_highlight_color, 3, v),
            ..s
        },
        SettingsMessage::SetClickDissolveMs(v) => Settings { click_dissolve_ms: v, ..s },
        SettingsMessage::SetClickHighlightHex(h) => Settings {
            click_highlight_color: click_hex_spec(h@, s.click_highlight_color),
            ..s
        },
        SettingsMessage::SetClickHighlightColor(c) => Settings { click_highlight_color: c, ..s },
        SettingsMessage::SetBorderWidth(v) => Settings { border_width: v, ..s },
        SettingsMessage::SetBorderColorR(v) => Settings {
            border_color: with_channel3(s.border_color, 0, v),
            ..s
        },
        SettingsMessage::SetBorderColorG(v) => Settings {
            border_color: with_channel3(s.border_color, 1, v),
            ..s
        },
        SettingsMessage::SetBorderColorB(v) => Settings {
            border_color: with_channel3(s.border_color, 2, v),
            ..s
        },
        SettingsMessage::SetBorderColorHex(h) => match border_hex_spec(h@) {
            Some(c) => Settings { border_color: c, ..s },
            None => s,
        },
        SettingsMessage::SetTargetFps(v) => Settings {
            target_fps: clamp_fps_spec(v, monitor_hz),
            ..s
        },
        SettingsMessage::SetUseGpu(v) => Settings { use_gpu: v, ..s },
        SettingsMessage::SetSizePreset(p) => if p != SizePreset::Custom {
            Settings {
                size_preset: p,
                custom_width: preset_dimensions(p).0,
                custom_height: preset_dimensions(p).1,
                ..s
            }
        } else {
            Settings { size_preset: p, ..s }
        },
        SettingsMessage::SetCustomWidth(t) => match parse_u32_spec(t@) {
            Some(w) => Settings {
                custom_width: if w > MIN_WIDTH { w } else { MIN_WIDTH },
                size_preset: SizePreset::Custom,
                ..s
            },
            None => s,
        },
        SettingsMessage::SetCustomHeight(t) => match parse_u32_spec(t@) {
            Some(h) => Settings {
                custom_height: if h > MIN_HEIGHT { h } else { MIN_HEIGHT },
                size_preset: SizePreset::Custom,
                ..s
            },
            None => s,
        },
        SettingsMessage::SetPositionPreset(p) => if p != PositionPreset::Custom {
            let pos = position_spec(
                p,
                current_size_spec(s).0 as int,
                current_size_spec(s).1 as int,
                0,
                0,
                screen_width as int,
                screen_height as int,
            );
            Settings { position_preset: p, custom_x: pos.0 as i32, custom_y: pos.1 as i32, ..s }
        } else {
            Settings { position_preset: p, ..s }
        },
        SettingsMessage::SetCustomX(t) => match parse_i32_spec(t@) {
            Some(x) => Settings { custom_x: x, position_preset: PositionPreset::Custom, ..s },
            None => s,
        },
        SettingsMessage::SetCustomY(t) => match parse_i32_spec(t@) {
            Some(y) => Settings { custom_y: y, position_preset: PositionPreset::Custom, ..s },
            None => s,
        },
        SettingsMessage::SetSaveLastPosition(v) => Settings { save_last_position: v, ..s },
        SettingsMessage::SetRememberRegion(v) => Settings { remember_region: v, ..s },
        SettingsMessage::SetAutoStart(v) => Settings { auto_start: v, ..s },
        SettingsMessage::SetShowShortcuts(v) => Settings { show_shortcuts: v, ..s },
    }
}

/// Read "#RRGGBB" or "#RRGGBBAA" into a click colour.
pub fn click_color_from_hex(hex: &str, old_color: [u8; 4]) -> (r: [u8; 4])
    ensures
        r == click_hex_spec(hex@, old_color),
{
    let t = trim_hashes(hex);
    let mut c = old_color;
    if t.len() >= 6 {
        let red = parse_hex_pair(t[0], t[1]);
        let green = parse_hex_pair(t[2], t[3]);
        let blue = parse_hex_pair(t[4], t[5]);
        match (red, green, blue) {
            (Some(r), Some(g), Some(b)) => {
                c = [r, g, b, old_color[3]];
                if t.len() >= 8 {
                    if let Some(a) = parse_hex_pair(t[6], t[7]) {
                        c = [r, g, b, a];
                    }
                }
            },
            _ => {},
        }
    }
    assert(c =~= click_hex_spec(hex@, old_color));
    c
}

/// Apply one message of the settings dialog. `monitor_hz` is the monitor's
/// refresh rate and (`screen_width`, `screen_height`) the screen size, both
/// read by the caller.
#[verifier::spinoff_prover]
#[verifier::rlimit(60)]
pub fn apply_settings_message(
    settings: &mut Settings,
    msg: &SettingsMessage,
    monitor_hz: u32,
    screen_width: u32,
    screen_height: u32,
)
    requires
        message_ok(*old(settings), *msg, screen_width, screen_height),
    ensures
        *final(settings) == apply_message_spec(
            *old(settings),
            *msg,
            monitor_hz,
            screen_width,
            screen_height,
        ),
{
    match msg {
        SettingsMessage::SetShowCursor(v) => settings.show_cursor = *v,
        SettingsMessage::SetCaptureClicks(v) => settings.capture_clicks = *v,
        SettingsMessage::SetClickHighlightR(v) => {
            settings.click_highlight_color[0] = *v;
            assert(settings.click_highlight_color =~= with_channel4(old(settings).click_highlight_color, 0, *v));
        },
        SettingsMessage::SetClickHighlightG(v) => {
            settings.click_highlight_color[1] = *v;
            assert(settings.click_highlight_color =~= with_channel4(old(settings).click_highlight_color, 1, *v));
        },
        SettingsMessage::SetClickHighlightB(v) => {
            settings.click_highlight_color[2] = *v;
            assert(settings.click_highlight_color =~= with_channel4(old(settings).click_highlight_color, 2, *v));
        },
        SettingsMessage::SetClickHighlightAlpha(v) => {
            settings.click_highlight_color[3] = *v;
            assert(settings.click_highlight_color =~= with_channel4(old(settings).click_highlight_color, 3, *v));
        },
        SettingsMessage::SetClickDissolveMs(v) => settings.click_dissolve_ms = *v,
        SettingsMessage::SetClickHighlightHex(h) => {
            let c = click_color_from_hex(h.as_str(), settings.click_highlight_color);
            settings.click_highlight_color = c;
        },
        SettingsMessage::SetClickHighlightColor(c) => settings.click_highlight_color = *c,
        SettingsMessage::SetBorderWidth(v) => settings.border_width = *v,
        SettingsMessage::SetBorderColorR(v) => {
            settings.border_color[0] = *v;
            assert(settings.border_color =~= with_channel3(old(settings).border_color, 0, *v));
        },
        SettingsMessage::SetBorderColorG(v) => {
            settings.border_color[1] = *v;
            assert(settings.border_color =~= with_channel3(old(settings).border_color, 1, *v));
        },
        SettingsMessage::SetBorderColorB(v) => {
            settings.border_color[2] = *v;
            assert(settings.border_color =~= with_channel3(old(settings).border_color, 2, *v));
        },
        SettingsMessage::SetBorderColorHex(h) => {
            let _ = settings.set_border_color_from_hex(h.as_str());
        },
        SettingsMessage::SetTargetFps(v) => {
            let max_fps = if monitor_hz < MAX_TARGET_FPS {
                monitor_hz
            } else {
                MAX_TARGET_FPS
            };
            settings.target_fps = if *v < max_fps {
                *v
            } else {
                max_fps
            };
        },
        SettingsMessage::SetUseGpu(v) => settings.use_gpu = *v,
        SettingsMessage::SetSizePreset(p) => {
            settings.size_preset = *p;
            if *p != SizePreset::Custom {
                let (w, h) = p.dimensions();
                settings.custom_width = w;
                settings.custom_height = h;
            }
        },
        SettingsMessage::SetCustomWidth(t) => {
            let cs = chars_of(t.as_str());
            if let Some(w) = parse_u32(&cs) {
                settings.custom_width = if w > MIN_WIDTH {
                    w
                } else {
                    MIN_WIDTH
                };
                settings.size_preset = SizePreset::Custom;
            }
        },
        SettingsMessage::SetCustomHeight(t) => {
            let cs = chars_of(t.as_str());
            if let Some(h) = parse_u32(&cs) {
                settings.custom_height = if h > MIN_HEIGHT {
                    h
                } else {
                    MIN_HEIGHT
                };
                settings.size_preset = SizePreset::Custom;
            }
        },
        SettingsMessage::SetPositionPreset(p) => {
            settings.position_preset = *p;
            if *p != PositionPreset::Custom {
                let window_w = settings.get_effective_width();
                let window_h = settings.get_effective_height();
                let (x, y) = p.calculate(window_w, window_h, 0, 0, screen_width, screen_height);
                settings.custom_x = x;
                settings.custom_y = y;
            }
        },
        SettingsMessage::SetCustomX(t) => {
            let cs = chars_of(t.as_str());
            if let Some(x) = parse_i32(&cs) {
                settings.custom_x = x;
                settings.position_preset = PositionPreset::Custom;
            }
        },
        SettingsMessage::SetCustomY(t) => {
            let cs = chars_of(t.as_str());
            if let Some(y) = parse_i32(&cs) {
                settings.custom_y = y;
                settings.position_preset = PositionPreset::Custom;
            }
        },
        SettingsMessage::SetSaveLastPosition(v) => settings.save_last_position = *v,
        SettingsMessage::SetRememberRegion(v) => settings.remember_region = *v,
        SettingsMessage::SetAutoStart(v) => settings.auto_start = *v,
        SettingsMessage::SetShowShortcuts(v) => settings.show_shortcuts = *v,
    }
}

/// A colour's own "#RRGGBB" text reads back as that colour: writing and
/// reading the border colour are inverse.
pub proof fn lemma_border_hex_round_trip(c: [u8; 3])
    ensures
        border_hex_spec(border_hex_text(c)) == Some(c),
{
    let t = border_hex_text(c);
    let body = hex_byte_text(c[0]) + hex_byte_text(c[1]) + hex_byte_text(c[2]);
    assert(t.drop_first() =~= body);
    lemma_hex_byte_reads_back(c[0]);
    lemma_hex_byte_reads_back(c[1]);
    lemma_hex_byte_reads_back(c[2]);
    assert(body[0] != '#');
    assert(strip_hashes(body) == body);
    assert(strip_hashes(t) == strip_hashes(t.drop_first()));
    assert(body[0] == hex_byte_text(c[0])[0] && body[1] == hex_byte_text(c[0])[1]);
    assert(body[2] == hex_byte_text(c[1])[0] && body[3] == hex_byte_text(c[1])[1]);
    assert(body[4] == hex_byte_text(c[2])[0] && body[5] == hex_byte_text(c[2])[1]);
    assert(border_hex_spec(t)->0 =~= c);
}

proof fn lemma_hex_byte_reads_back(b: u8)
    ensures
        hex_pair_spec(hex_byte_text(b)[0], hex_byte_text(b)[1]) == Some(b),
        hex_byte_text(b)[0] != '#',
        hex_byte_text(b)[0] != '+',
{
    let hi = (b / 16) as nat;
    let lo = (b % 16) as nat;
    assert(hi < 16 && lo < 16);
    assert(hi * 16 + lo == b);
}

/// The text "(WxH)" that closes the name of a preset of size W by H.
pub open spec fn size_suffix(w: nat, h: nat) -> Seq<char> {
    seq!['('] + dec_digits(w) + seq!['x'] + dec_digits(h) + seq![')']
}

/// Every preset but the custom one gives the size its name states: the name
/// ends in "(WxH)" for its width W and height H. The widescreen presets are
/// 16:9 and grow with their names (720p, 1080p, 1440p, 4K), and the square
/// one is square.
pub proof fn lemma_size_preset_names_state_dimensions(p: SizePreset)
    ensures
        p != SizePreset::Custom ==> {
            let (w, h) = preset_dimensions(p);
            let name = size_preset_name(p);
            let suffix = size_suffix(w as nat, h as nat);
            &&& suffix.len() <= name.len()
            &&& name.subrange(name.len() - suffix.len(), name.len() as int) == suffix
        },
        (p == SizePreset::W720p || p == SizePreset::W1080p || p == SizePreset::W1440p || p == SizePreset::W4K)
            ==> 9 * preset_dimensions(p).0 == 16 * preset_dimensions(p).1,
        p == SizePreset::Square ==> preset_dimensions(p).0 == preset_dimensions(p).1,
        preset_dimensions(SizePreset::W720p).1 < preset_dimensions(SizePreset::W1080p).1,
        preset_dimensions(SizePreset::W1080p).1 < preset_dimensions(SizePreset::W1440p).1,
        preset_dimensions(SizePreset::W1440p).1 < preset_dimensions(SizePreset::W4K).1,
{
    reveal_with_fuel(dec_digits, 5);
    match p {
        SizePreset::W720p => {
            reveal_strlit("720p (1280x720)");
            let suffix = size_suffix(1280, 720);
            assert(dec_digits(1280) =~= seq!['1', '2', '8', '0']);
            assert(dec_digits(720) =~= seq!['7', '2', '0']);
            let name = size_preset_name(p);
            assert(name.subrange(name.len() - suffix.len(), name.len() as int) =~= suffix);
        },
        SizePreset::W1080p => {
            reveal_strlit("1080p (1920x1080)");
            let suffix = size_suffix(1920, 1080);
            assert(dec_digits(1920) =~= seq!['1', '9', '2', '0']);
            assert(dec_digits(1080) =~= seq!['1', '0', '8', '0']);
            let name = size_preset_name(p);
            assert(name.subrange(name.len() - suffix.len(), name.len() as int) =~= suffix);
        },
        SizePreset::W1440p => {
            reveal_strlit("1440p (2560x1440)");
            let suffix = size_suffix(2560, 1440);
            assert(dec_digits(2560) =~= seq!['2', '5', '6', '0']);
            assert(dec_digits(1440) =~= seq!['1', '4', '4', '0']);
            let name = size_preset_name(p);
            assert(name.subrange(name.len() - suffix.len(), name.len() as int) =~= suffix);
        },
        SizePreset::W4K => {
            reveal_strlit("4K (3840x2160)");
            let suffix = size_suffix(3840, 2160);
            assert(dec_digits(3840) =~= seq!['3', '8', '4', '0']);
            assert(dec_digits(2160) =~= seq!['2', '1', '6', '0']);
            let name = size_preset_name(p);
            assert(name.subrange(name.len() - suffix.len(), name.len() as int) =~= suffix);
        },
        SizePreset::Square => {
            reveal_strlit("Square (1080x1080)");
            let suffix = size_suffix(1080, 1080);
            assert(dec_digits(1080) =~= seq!['1', '0', '8', '0']);
            let name = size_preset_name(p);
            assert(name.subrange(name.len() - suffix.len(), name.len() as int) =~= suffix);
        },
        SizePreset::Custom => {},
    }
}

/// A centred window that fits on the screen lies wholly on it, with equal
/// room (up to one pixel) on either side.
pub proof fn lemma_center_on_screen(ww: int, wh: int, sw: int, sh: int)
    requires
        0 <= ww <= sw,
        0 <= wh <= sh,
    ensures
        ({
            let p = position_spec(PositionPreset::Center, ww, wh, 0, 0, sw, sh);
            &&& 0 <= p.0 && p.0 + ww <= sw
            &&& 0 <= p.1 && p.1 + wh <= sh
            &&& (sw - (p.0 + ww)) - p.0 <= 1 && p.0 <= sw - (p.0 + ww)
            &&& (sh - (p.1 + wh)) - p.1 <= 1 && p.1 <= sh - (p.1 + wh)
        }),
{
}

/// Every corner preset keeps the window 50 pixels from the two screen edges
/// of its corner, and the custom preset gives the custom point. With the
/// window at (x, y), its gaps to the screen's left, top, right and bottom
/// edges are x, y, sw - (x + ww) and sh - (y + wh).
pub proof fn lemma_corner_margins(ww: int, wh: int, cx: int, cy: int, sw: int, sh: int)
    ensures
        forall|p: PositionPreset|
            {
                let r = #[trigger] position_spec(p, ww, wh, cx, cy, sw, sh);
                let (left_gap, top_gap, right_gap, bottom_gap) = (r.0, r.1, sw - (r.0 + ww), sh - (r.1 + wh));
                &&& (p == PositionPreset::TopLeft || p == PositionPreset::BottomLeft) ==> left_gap == 50
                &&& (p == PositionPreset::TopRight || p == PositionPreset::BottomRight) ==> right_gap == 50
                &&& (p == PositionPreset::TopLeft || p == PositionPreset::TopRight) ==> top_gap == 50
                &&& (p == PositionPreset::BottomLeft || p == PositionPreset::BottomRight) ==> bottom_gap == 50
                &&& p == PositionPreset::Custom ==> r == (cx, cy)
            },
        position_spec(PositionPreset::TopLeft, ww, wh, cx, cy, sw, sh) == (50int, 50int),
        position_spec(PositionPreset::TopRight, ww, wh, cx, cy, sw, sh).0 + ww + 50 == sw,
        position_spec(PositionPreset::BottomLeft, ww, wh, cx, cy, sw, sh).1 + wh + 50 == sh,
        position_spec(PositionPreset::BottomRight, ww, wh, cx, cy, sw, sh) == (sw - ww - 50, sh - wh - 50),
        position_spec(PositionPreset::Custom, ww, wh, cx, cy, sw, sh) == (cx, cy),
{
}

/// A window placed by any preset but the custom one, that fits on the screen
/// with room for the 50-pixel margins, lies wholly on the screen; the corner
/// presets put it against their own corner, so TopLeft and TopRight (and
/// likewise the bottom pair) share a row, and TopLeft and BottomLeft (and
/// the right pair) share a column.
pub proof fn lemma_presets_on_screen(ww: int, wh: int, cx: int, cy: int, sw: int, sh: int)
    requires
        0 <= ww,
        0 <= wh,
        ww + 100 <= sw,
        wh + 100 <= sh,
    ensures
        forall|p: PositionPreset|
            p != PositionPreset::Custom ==> {
                let r = #[trigger] position_spec(p, ww, wh, cx, cy, sw, sh);
                &&& 0 <= r.0 && r.0 + ww <= sw
                &&& 0 <= r.1 && r.1 + wh <= sh
            },
        position_spec(PositionPreset::TopLeft, ww, wh, cx, cy, sw, sh).1 == position_spec(
            PositionPreset::TopRight,
            ww,
            wh,
            cx,
            cy,
            sw,
            sh,
        ).1,
        position_spec(PositionPreset::BottomLeft, ww, wh, cx, cy, sw, sh).1 == position_spec(
            PositionPreset::BottomRight,
            ww,
            wh,
            cx,
            cy,
            sw,
            sh,
        ).1,
        position_spec(PositionPreset::TopLeft, ww, wh, cx, cy, sw, sh).0 == position_spec(
            PositionPreset::BottomLeft,
            ww,
            wh,
            cx,
            cy,
            sw,
            sh,
        ).0,
        position_spec(PositionPreset::TopRight, ww, wh, cx, cy, sw, sh).0 == position_spec(
            PositionPreset::BottomRight,
            ww,
            wh,
            cx,
            cy,
            sw,
            sh,
        ).0,
{
    assert forall|p: PositionPreset| p != PositionPreset::Custom implies {
        let r = #[trigger] position_spec(p, ww, wh, cx, cy, sw, sh);
        &&& 0 <= r.0 && r.0 + ww <= sw
        &&& 0 <= r.1 && r.1 + wh <= sh
    } by {
        if p == PositionPreset::Center {
            lemma_center_on_screen(ww, wh, sw, sh);
        }
    }
}

/// Choosing a size preset makes it the region size, and copies it into the
/// custom size so that a later switch to the custom preset keeps the size.
pub proof fn lemma_size_preset_applies(s: Settings, p: SizePreset, hz: u32, sw: u32, sh: u32)
    requires
        p != SizePreset::Custom,
    ensures
        ({
            let t = apply_message_spec(s, SettingsMessage::SetSizePreset(p), hz, sw, sh);
            &&& current_size_spec(t) == preset_dimensions(p)
            &&& current_size_spec(Settings { size_preset: SizePreset::Custom, ..t }) == preset_dimensions(p)
        }),
{
}

/// A typed custom width or height is never below the minimum, and it switches
/// the size preset to custom so that it takes effect.
pub proof fn lemma_custom_size_minimum(s: Settings, text: String, hz: u32, sw: u32, sh: u32)
    requires
        parse_u32_spec(text@) is Some,
    ensures
        ({
            let tw = apply_message_spec(s, SettingsMessage::SetCustomWidth(text), hz, sw, sh);
            let th = apply_message_spec(s, SettingsMessage::SetCustomHeight(text), hz, sw, sh);
            &&& tw.custom_width >= MIN_WIDTH && current_size_spec(tw).0 == tw.custom_width
            &&& th.custom_height >= MIN_HEIGHT && current_size_spec(th).1 == th.custom_height
        }),
{
}

/// The stored frame rate never exceeds the monitor's rate or 240, and a
/// rate within both bounds is stored as requested.
pub proof fn lemma_target_fps_bounded(s: Settings, v: u32, hz: u32, sw: u32, sh: u32)
    ensures
        ({
            let t = apply_message_spec(s, SettingsMessage::SetTargetFps(v), hz, sw, sh);
            &&& t.target_fps <= hz && t.target_fps <= MAX_TARGET_FPS
            &&& (v <= hz && v <= MAX_TARGET_FPS) ==> t.target_fps == v
        }),
{
}

/// A position preset stores its computed point as the custom point, so
/// switching to the custom preset afterwards leaves the window where it was.
pub proof fn lemma_position_preset_stored(s: Settings, p: PositionPreset, hz: u32, sw: u32, sh: u32)
    requires
        p != PositionPreset::Custom,
        position_inputs_ok(current_size_spec(s).0, current_size_spec(s).1, sw, sh),
    ensures
        ({
            let t = apply_message_spec(s, SettingsMessage::SetPositionPreset(p), hz, sw, sh);
            let ww = current_size_spec(t).0 as int;
            let wh = current_size_spec(t).1 as int;
            position_spec(PositionPreset::Custom, ww, wh, t.custom_x as int, t.custom_y as int, sw as int, sh as int)
                == position_spec(p, ww, wh, 0, 0, sw as int, sh as int)
        }),
{
    let ww = current_size_spec(s).0 as int;
    let wh = current_size_spec(s).1 as int;
    let pos = position_spec(p, ww, wh, 0, 0, sw as int, sh as int);
    assert(i32::MIN <= pos.0 <= i32::MAX);
    assert(i32::MIN <= pos.1 <= i32::MAX);
}


// ---------------------------------------------------------------------------
// Monitor refresh rate

/// The standard refresh rates, each with the lowest measured rate taken as
/// it (95% of it, rounded down), lowest first.
pub open spec fn standard_rates() -> Seq<(u32, u32)> {
    seq![
        (30u32, 28u32),
        (60, 57),
        (75, 71),
        (90, 85),
        (120, 114),
        (144, 136),
        (165, 156),
        (180, 171),
        (240, 228),
        (360, 342),
    ]
}

/// The first standard rate, from index `i` on, that a measured rate lies
/// within.
pub open spec fn standard_match_from(hz: u32, i: int) -> Option<u32>
    decreases standard_rates().len() - i,
{
    if i < 0 || i >= standard_rates().len() {
        None
    } else if standard_rates()[i].1 <= hz <= standard_rates()[i].0 {
        Some(standard_rates()[i].0)
    } else {
        standard_match_from(hz, i + 1)
    }
}

/// The refresh rate taken for a measured one: the standard rate it lies
/// within (5% below it at most), or else the measured rate, at least 30.
pub open spec fn refresh_rate_spec(hz: u32) -> u32 {
    match standard_match_from(hz, 0) {
        Some(rate) => rate,
        None => if hz >= 30 {
            hz
        } else {
            30
        },
    }
}

/// The refresh rate taken for a measured one, so that fractional rates
/// such as 59.94 Hz count as their standard rate.
pub fn match_standard_refresh_rate(hz: u32) -> (r: u32)
    ensures
        r == refresh_rate_spec(hz),
{
    let rates: [(u32, u32); 10] = [
        (30, 28),
        (60, 57),
        (75, 71),
        (90, 85),
        (120, 114),
        (144, 136),
        (165, 156),
        (180, 171),
        (240, 228),
        (360, 342),
    ];
    assert(rates@ =~= standard_rates());
    let mut i: usize = 0;
    while i < 10
        invariant
            0 <= i <= 10,
            rates@ == standard_rates(),
            standard_match_from(hz, i as int) == standard_match_from(hz, 0),
        decreases 10 - i,
    {
        let (rate, lower) = rates[i];
        if hz >= lower && hz <= rate {
            return rate;
        }
        i = i + 1;
    }
    if hz >= 30 {
        hz
    } else {
        30
    }
}

/// The monitor's refresh rate: the standard rate for the one the display
/// reports, or 60 Hz where it reports none.
pub fn get_monitor_refresh_rate(reported: Option<u32>) -> (r: u32)
    ensures
        r == match reported {
            Some(hz) => refresh_rate_spec(hz),
            None => 60,
        },
{
    match reported {
        Some(hz) => match_standard_refresh_rate(hz),
        None => 60,
    }
}

/// Whether the frame-rate presets add one for the monitor's own rate: only
/// where it is not one of 30, 60, 120 and 144.
pub fn shows_monitor_preset(monitor_hz: u32) -> (r: bool)
    ensures
        r == !(monitor_hz == 30 || monitor_hz == 60 || monitor_hz == 120 || monitor_hz == 144),
{
    !(monitor_hz == 30 || monitor_hz == 60 || monitor_hz == 120 || monitor_hz == 144)
}

/// The refresh rate taken is never below 30 Hz, and a measured rate is
/// never raised by more than 5%.
pub proof fn lemma_refresh_rate_bounds(hz: u32)
    ensures
        refresh_rate_spec(hz) >= 30,
        hz >= 30 ==> hz <= refresh_rate_spec(hz),
        hz >= 30 ==> 95 * refresh_rate_spec(hz) <= 100 * hz + 100,
{
    reveal_with_fuel(standard_match_from, 11);
}

} // verus!
