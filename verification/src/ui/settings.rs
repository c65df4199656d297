//! The tabbed settings dialog of the overlay: its tabs, and the validation of
//! the custom size and position typed into it.
use vstd::prelude::*;
use crate::text::{chars_of, dec_digits, dec_text, i32_to_string, parse_i32, parse_i32_spec, parse_u32, parse_u32_spec, u32_to_string};

verus! {

/// Tabs of the settings dialog.
#[derive(Debug, Clone, Copy, PartialEq, Eq, Structural)]
pub enum SettingsTab {
    General,
    Window,
    Capture,
    Advanced,
}

impl SettingsTab {
    /// Every tab, in display order.
    pub fn all() -> (r: Vec<SettingsTab>)
        ensures
            r@ == seq![SettingsTab::General, SettingsTab::Window, SettingsTab::Capture, SettingsTab::Advanced],
    {
        let r = vec![SettingsTab::General, SettingsTab::Window, SettingsTab::Capture, SettingsTab::Advanced];
        assert(r@ =~= seq![SettingsTab::General, SettingsTab::Window, SettingsTab::Capture, SettingsTab::Advanced]);
        r
    }

    /// The tab's icon.
    pub fn icon(&self) -> (r: &'static str)
        ensures
            r@ == match *self {
                SettingsTab::General => "⚙"@,
                SettingsTab::Window => "🪟"@,
                SettingsTab::Capture => "🎥"@,
                SettingsTab::Advanced => "🔧"@,
            },
    {
        match self {
            SettingsTab::General => "⚙",
            SettingsTab::Window => "🪟",
            SettingsTab::Capture => "🎥",
            SettingsTab::Advanced => "🔧",
        }
    }

    /// The tab's name.
    pub fn name(&self) -> (r: &'static str)
        ensures
            r@ == match *self {
                SettingsTab::General => "General"@,
                SettingsTab::Window => "Window"@,
                SettingsTab::Capture => "Capture"@,
                SettingsTab::Advanced => "Advanced"@,
            },
    {
        match self {
            SettingsTab::General => "General",
            SettingsTab::Window => "Window",
            SettingsTab::Capture => "Capture",
            SettingsTab::Advanced => "Advanced",
        }
    }
}

/// What the dialog reports after a frame.
pub struct SettingsResponse {
    /// The settings were applied.
    pub applied: bool,
    /// The dialog was cancelled.
    pub cancelled: bool,
}

impl Default for SettingsResponse {
    fn default() -> (r: Self)
        ensures
            !r.applied,
            !r.cancelled,
    {
        SettingsResponse { applied: false, cancelled: false }
    }
}

/// The part of the settings the dialog checks: whether the size and the
/// position are custom, and the custom values.
#[derive(Debug, Clone, Copy, PartialEq, Eq, Structural)]
pub struct CustomGeometry {
    pub size_is_custom: bool,
    pub position_is_custom: bool,
    pub custom_width: u32,
    pub custom_height: u32,
    pub custom_x: i32,
    pub custom_y: i32,
}

pub const MIN_CUSTOM_SIDE: u32 = 100;
pub const MAX_CUSTOM_WIDTH: u32 = 7680;
pub const MAX_CUSTOM_HEIGHT: u32 = 4320;
pub const MAX_CUSTOM_OFFSET: i32 = 10000;

pub open spec fn width_error() -> Seq<char> {
    "Width must be between 100 and 7680"@
}

pub open spec fn height_error() -> Seq<char> {
    "Height must be between 100 and 4320"@
}

pub open spec fn x_error() -> Seq<char> {
    "X must be between -10000 and 10000"@
}

pub open spec fn y_error() -> Seq<char> {
    "Y must be between -10000 and 10000"@
}

/// A typed side length, where it is a number from 100 to `max`.
pub open spec fn side_ok(text: Seq<char>, max: u32) -> Option<u32> {
    match parse_u32_spec(text) {
        Some(v) => if MIN_CUSTOM_SIDE <= v <= max {
            Some(v)
        } else {
            None
        },
        None => None,
    }
}

/// A typed offset, where it is a number from -10000 to 10000.
pub open spec fn offset_ok(text: Seq<char>) -> Option<i32> {
    match parse_i32_spec(text) {
        Some(v) => if -MAX_CUSTOM_OFFSET <= v <= MAX_CUSTOM_OFFSET {
            Some(v)
        } else {
            None
        },
        None => None,
    }
}

/// Checking the typed values, in order width, height, x, y (the size only
/// when it is custom, the position only when it is custom): each good value
/// is stored as it is read; the first bad one stops the validation with its
/// message. The result is the geometry afterwards and the message, if any.
pub open spec fn validate_spec(
    g: CustomGeometry,
    w: Seq<char>,
    h: Seq<char>,
    x: Seq<char>,
    y: Seq<char>,
) -> (CustomGeometry, Option<Seq<char>>) {
    if g.size_is_custom && side_ok(w, MAX_CUSTOM_WIDTH) is None {
        (g, Some(width_error()))
    } else {
        let g1 = if g.size_is_custom {
            CustomGeometry { custom_width: side_ok(w, MAX_CUSTOM_WIDTH).unwrap(), ..g }
        } else {
            g
        };
        if g.size_is_custom && side_ok(h, MAX_CUSTOM_HEIGHT) is None {
            (g1, Some(height_error()))
        } else {
            let g2 = if g.size_is_custom {
                CustomGeometry { custom_height: side_ok(h, MAX_CUSTOM_HEIGHT).unwrap(), ..g1 }
            } else {
                g1
            };
            if g.position_is_custom && offset_ok(x) is None {
                (g2, Some(x_error()))
            } else {
                let g3 = if g.position_is_custom {
                    CustomGeometry { custom_x: offset_ok(x).unwrap(), ..g2 }
                } else {
                    g2
                };
                if g.position_is_custom && offset_ok(y) is None {
                    (g3, Some(y_error()))
                } else {
                    let g4 = if g.position_is_custom {
                        CustomGeometry { custom_y: offset_ok(y).unwrap(), ..g3 }
                    } else {
                        g3
                    };
                    (g4, None)
                }
            }
        }
    }
}

/// The dialog's state.
pub struct SettingsDialog {
    pub is_open: bool,
    pub current_tab: SettingsTab,
    /// The settings being edited (applied on OK).
    pub temp: CustomGeometry,
    pub custom_width_str: String,
    pub custom_height_str: String,
    pub custom_x_str: String,
    pub custom_y_str: String,
    /// The highest frame rate offered (the monitor's refresh rate).
    pub max_fps: u32,
    pub validation_error: Option<String>,
}

/// The view of an optional message.
pub open spec fn message_view(m: Option<String>) -> Option<Seq<char>> {
    match m {
        Some(s) => Some(s@),
        None => None,
    }
}

/// A typed side length, where it is a number from 100 to `max`.
fn read_side(text: &String, max: u32) -> (r: Option<u32>)
    ensures
        r == side_ok(text@, max),
{
    let chars = chars_of(text.as_str());
    match parse_u32(&chars) {
        Some(v) => if MIN_CUSTOM_SIDE <= v && v <= max {
            Some(v)
        } else {
            None
        },
        None => None,
    }
}

/// A typed offset, where it is a number from -10000 to 10000.
fn read_offset(text: &String) -> (r: Option<i32>)
    ensures
        r == offset_ok(text@),
{
    let chars = chars_of(text.as_str());
    match parse_i32(&chars) {
        Some(v) => if -MAX_CUSTOM_OFFSET <= v && v <= MAX_CUSTOM_OFFSET {
            Some(v)
        } else {
            None
        },
        None => None,
    }
}

impl SettingsDialog {
    /// A closed dialog on the General tab, editing `defaults`, with the
    /// input fields preset to 800 by 600 at (100, 100); `max_fps` is the
    /// monitor's refresh rate (60 where it is not known).
    pub fn new(defaults: CustomGeometry, max_fps: u32) -> (r: Self)
        ensures
            !r.is_open,
            r.current_tab == SettingsTab::General,
            r.temp == defaults,
            r.custom_width_str@ == "800"@,
            r.custom_height_str@ == "600"@,
            r.custom_x_str@ == "100"@,
            r.custom_y_str@ == "100"@,
            r.max_fps == max_fps,
            r.validation_error is None,
    {
        SettingsDialog {
            is_open: false,
            current_tab: SettingsTab::General,
            temp: defaults,
            custom_width_str: "800".to_owned(),
            custom_height_str: "600".to_owned(),
            custom_x_str: "100".to_owned(),
            custom_y_str: "100".to_owned(),
            max_fps,
            validation_error: None,
        }
    }

    /// Open the dialog on the General tab with the current settings; the
    /// input fields show their values.
    pub fn open(&mut self, current: CustomGeometry)
        ensures
            final(self).is_open,
            final(self).current_tab == SettingsTab::General,
            final(self).temp == current,
            final(self).custom_width_str@ == dec_digits(current.custom_width as nat),
            final(self).custom_height_str@ == dec_digits(current.custom_height as nat),
            final(self).custom_x_str@ == dec_text(current.custom_x as int),
            final(self).custom_y_str@ == dec_text(current.custom_y as int),
            final(self).validation_error is None,
            final(self).max_fps == old(self).max_fps,
    {
        self.temp = current;
        self.custom_width_str = u32_to_string(current.custom_width);
        self.custom_height_str = u32_to_string(current.custom_height);
        self.custom_x_str = i32_to_string(current.custom_x);
        self.custom_y_str = i32_to_string(current.custom_y);
        self.validation_error = None;
        self.current_tab = SettingsTab::General;
        self.is_open = true;
    }

    /// Close the dialog without saving.
    pub fn close(&mut self)
        ensures
            !final(self).is_open,
            final(self).temp == old(self).temp,
            final(self).current_tab == old(self).current_tab,
            final(self).custom_width_str@ == old(self).custom_width_str@,
            final(self).custom_height_str@ == old(self).custom_height_str@,
            final(self).custom_x_str@ == old(self).custom_x_str@,
            final(self).custom_y_str@ == old(self).custom_y_str@,
            final(self).max_fps == old(self).max_fps,
            message_view(final(self).validation_error) == message_view(old(self).validation_error),
    {
        self.is_open = false;
    }

    /// Show the values being edited in the input fields again.
    pub fn sync_from_temp_settings(&mut self)
        ensures
            final(self).custom_width_str@ == dec_digits(old(self).temp.custom_width as nat),
            final(self).custom_height_str@ == dec_digits(old(self).temp.custom_height as nat),
            final(self).custom_x_str@ == dec_text(old(self).temp.custom_x as int),
            final(self).custom_y_str@ == dec_text(old(self).temp.custom_y as int),
            final(self).temp == old(self).temp,
            final(self).is_open == old(self).is_open,
            final(self).current_tab == old(self).current_tab,
            final(self).max_fps == old(self).max_fps,
            message_view(final(self).validation_error) == message_view(old(self).validation_error),
    {
        self.custom_width_str = u32_to_string(self.temp.custom_width);
        self.custom_height_str = u32_to_string(self.temp.custom_height);
        self.custom_x_str = i32_to_string(self.temp.custom_x);
        self.custom_y_str = i32_to_string(self.temp.custom_y);
    }

    /// Check the typed custom size and position and store the good values;
    /// returns whether every checked value was good. The first bad value
    /// leaves its message.
    pub fn validate_and_apply(&mut self) -> (r: bool)
        ensures
            ({
                let (g, err) = validate_spec(
                    old(self).temp,
                    old(self).custom_width_str@,
                    old(self).custom_height_str@,
                    old(self).custom_x_str@,
                    old(self).custom_y_str@,
                );
                &&& final(self).temp == g
                &&& message_view(final(self).validation_error) == err
                &&& r == (err is None)
            }),
            final(self).custom_width_str@ == old(self).custom_width_str@,
            final(self).custom_height_str@ == old(self).custom_height_str@,
            final(self).custom_x_str@ == old(self).custom_x_str@,
            final(self).custom_y_str@ == old(self).custom_y_str@,
            final(self).is_open == old(self).is_open,
            final(self).current_tab == old(self).current_tab,
            final(self).max_fps == old(self).max_fps,
    {
        self.validation_error = None;
        if self.temp.size_is_custom {
            match read_side(&self.custom_width_str, MAX_CUSTOM_WIDTH) {
                Some(w) => self.temp.custom_width = w,
                None => {
                    self.validation_error = Some("Width must be between 100 and 7680".to_owned());
                    return false;
                },
            }
            match read_side(&self.custom_height_str, MAX_CUSTOM_HEIGHT) {
                Some(h) => self.temp.custom_height = h,
                None => {
                    self.validation_error = Some("Height must be between 100 and 4320".to_owned());
                    return false;
                },
            }
        }
        if self.temp.position_is_custom {
            match read_offset(&self.custom_x_str) {
                Some(x) => self.temp.custom_x = x,
                None => {
                    self.validation_error = Some("X must be between -10000 and 10000".to_owned());
                    return false;
                },
            }
            match read_offset(&self.custom_y_str) {
                Some(y) => self.temp.custom_y = y,
                None => {
                    self.validation_error = Some("Y must be between -10000 and 10000".to_owned());
                    return false;
                },
            }
        }
        true
    }
}

/// What the user does in the open dialog during a frame.
#[derive(Debug, Clone, Copy, PartialEq, Eq, Structural)]
pub enum DialogEvent {
    /// A tab was clicked.
    SelectTab(SettingsTab),
    /// "Reset to Defaults" was clicked; these are the defaults.
    ResetToDefaults(CustomGeometry),
    /// "Cancel" was clicked.
    Cancel,
    /// "Save" was clicked.
    Save,
    /// Escape was pressed.
    Escape,
}

impl SettingsDialog {
    /// Handle what the user did. A closed dialog ignores everything. A tab
    /// click switches tabs; a reset takes the defaults and shows them;
    /// Cancel and Escape close the dialog; Save validates, and only where
    /// every value is good copies the edited values to `applied` and closes.
    pub fn handle_event(&mut self, event: DialogEvent, applied: &mut CustomGeometry) -> (r: SettingsResponse)
        ensures
            final(self).max_fps == old(self).max_fps,
            !old(self).is_open ==> {
                &&& !final(self).is_open
                &&& final(self).current_tab == old(self).current_tab
                &&& final(self).temp == old(self).temp
                &&& final(self).custom_width_str@ == old(self).custom_width_str@
                &&& final(self).custom_height_str@ == old(self).custom_height_str@
                &&& final(self).custom_x_str@ == old(self).custom_x_str@
                &&& final(self).custom_y_str@ == old(self).custom_y_str@
                &&& message_view(final(self).validation_error) == message_view(old(self).validation_error)
                &&& *final(applied) == *old(applied)
                &&& !r.applied && !r.cancelled
            },
            old(self).is_open ==> match event {
                DialogEvent::SelectTab(t) => {
                    &&& final(self).is_open
                    &&& final(self).current_tab == t
                    &&& final(self).temp == old(self).temp
                    &&& final(self).custom_width_str@ == old(self).custom_width_str@
                    &&& final(self).custom_height_str@ == old(self).custom_height_str@
                    &&& final(self).custom_x_str@ == old(self).custom_x_str@
                    &&& final(self).custom_y_str@ == old(self).custom_y_str@
                    &&& message_view(final(self).validation_error) == message_view(old(self).validation_error)
                    &&& *final(applied) == *old(applied)
                    &&& !r.applied && !r.cancelled
                },
                DialogEvent::ResetToDefaults(d) => {
                    &&& final(self).is_open
                    &&& final(self).current_tab == old(self).current_tab
                    &&& final(self).temp == d
                    &&& final(self).custom_width_str@ == dec_digits(d.custom_width as nat)
                    &&& final(self).custom_height_str@ == dec_digits(d.custom_height as nat)
                    &&& final(self).custom_x_str@ == dec_text(d.custom_x as int)
                    &&& final(self).custom_y_str@ == dec_text(d.custom_y as int)
                    &&& message_view(final(self).validation_error) == message_view(old(self).validation_error)
                    &&& *final(applied) == *old(applied)
                    &&& !r.applied && !r.cancelled
                },
                DialogEvent::Cancel | DialogEvent::Escape => {
                    &&& !final(self).is_open
                    &&& final(self).current_tab == old(self).current_tab
                    &&& final(self).temp == old(self).temp
                    &&& final(self).custom_width_str@ == old(self).custom_width_str@
                    &&& final(self).custom_height_str@ == old(self).custom_height_str@
                    &&& final(self).custom_x_str@ == old(self).custom_x_str@
                    &&& final(self).custom_y_str@ == old(self).custom_y_str@
                    &&& message_view(final(self).validation_error) == message_view(old(self).validation_error)
                    &&& *final(applied) == *old(applied)
                    &&& !r.applied && r.cancelled
                },
                DialogEvent::Save => {
                    let (g, err) = validate_spec(
                        old(self).temp,
                        old(self).custom_width_str@,
                        old(self).custom_height_str@,
                        old(self).custom_x_str@,
                        old(self).custom_y_str@,
                    );
                    &&& final(self).temp == g
                    &&& message_view(final(self).validation_error) == err
                    &&& final(self).current_tab == old(self).current_tab
                    &&& final(self).custom_width_str@ == old(self).custom_width_str@
                    &&& final(self).custom_height_str@ == old(self).custom_height_str@
                    &&& final(self).custom_x_str@ == old(self).custom_x_str@
                    &&& final(self).custom_y_str@ == old(self).custom_y_str@
                    &&& final(self).is_open == (err is Some)
                    &&& *final(applied) == (if err is None { g } else { *old(applied) })
                    &&& r.applied == (err is None)
                    &&& !r.cancelled
                },
            },
    {
        let mut response = SettingsResponse::default();
        if !self.is_open {
            return response;
        }
        match event {
            DialogEvent::SelectTab(t) => {
                self.current_tab = t;
            },
            DialogEvent::ResetToDefaults(d) => {
                self.temp = d;
                self.sync_from_temp_settings();
            },
            DialogEvent::Cancel | DialogEvent::Escape => {
                self.is_open = false;
                response.cancelled = true;
            },
            DialogEvent::Save => {
                if self.validate_and_apply() {
                    *applied = self.temp;
                    self.is_open = false;
                    response.applied = true;
                }
            },
        }
        response
    }
}

/// The values the dialog stores always lie in their ranges: a custom size
/// from 100 by 100 up to 7680 by 4320, a custom position within 10000
/// pixels of the origin, whenever validation succeeds.
pub proof fn lemma_validated_in_range(g: CustomGeometry, w: Seq<char>, h: Seq<char>, x: Seq<char>, y: Seq<char>)
    requires
        validate_spec(g, w, h, x, y).1 is None,
    ensures
        ({
            let out = validate_spec(g, w, h, x, y).0;
            &&& g.size_is_custom ==> MIN_CUSTOM_SIDE <= out.custom_width <= MAX_CUSTOM_WIDTH
            &&& g.size_is_custom ==> MIN_CUSTOM_SIDE <= out.custom_height <= MAX_CUSTOM_HEIGHT
            &&& g.position_is_custom ==> -MAX_CUSTOM_OFFSET <= out.custom_x <= MAX_CUSTOM_OFFSET
            &&& g.position_is_custom ==> -MAX_CUSTOM_OFFSET <= out.custom_y <= MAX_CUSTOM_OFFSET
            &&& !g.size_is_custom ==> out.custom_width == g.custom_width && out.custom_height == g.custom_height
            &&& !g.position_is_custom ==> out.custom_x == g.custom_x && out.custom_y == g.custom_y
        }),
{
}

/// Showing the stored values in the input fields and checking them again
/// succeeds and changes nothing: what the dialog shows reads back as what
/// it holds, wherever the held values are in range.
pub proof fn lemma_sync_then_validate(g: CustomGeometry)
    requires
        g.size_is_custom ==> MIN_CUSTOM_SIDE <= g.custom_width <= MAX_CUSTOM_WIDTH && MIN_CUSTOM_SIDE
            <= g.custom_height <= MAX_CUSTOM_HEIGHT,
        g.position_is_custom ==> -MAX_CUSTOM_OFFSET <= g.custom_x <= MAX_CUSTOM_OFFSET && -MAX_CUSTOM_OFFSET
            <= g.custom_y <= MAX_CUSTOM_OFFSET,
    ensures
        validate_spec(
            g,
            dec_digits(g.custom_width as nat),
            dec_digits(g.custom_height as nat),
            dec_text(g.custom_x as int),
            dec_text(g.custom_y as int),
        ) == (g, None::<Seq<char>>),
{
    crate::text::lemma_parse_u32_of_digits(g.custom_width);
    crate::text::lemma_parse_u32_of_digits(g.custom_height);
    crate::text::lemma_parse_i32_of_text(g.custom_x);
    crate::text::lemma_parse_i32_of_text(g.custom_y);
}

} // verus!
