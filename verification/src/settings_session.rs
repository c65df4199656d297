//! The settings window of the main application: the applied settings, the
//! pending copy the window edits, its tab and its colour pickers.
//!
//! Every edit changes only the pending copy; only Apply makes it the
//! applied settings.
use vstd::prelude::*;
use crate::settings::{apply_message_spec, apply_settings_message, message_ok, Settings, SettingsMessage, SettingsTab};

verus! {

/// What happens in the settings window.
#[derive(Debug, Clone)]
pub enum SettingsEvent {
    /// A setting was changed.
    Edit(SettingsMessage),
    /// A tab was chosen.
    SwitchTab(SettingsTab),
    ToggleBorderColorPicker,
    ToggleClickColorPicker,
    /// The border colour picker was closed with this colour (RGB).
    BorderColorPickerSubmit([u8; 3]),
    BorderColorPickerCancel,
    /// The click colour picker was closed with this colour (RGBA).
    ClickColorPickerSubmit([u8; 4]),
    ClickColorPickerCancel,
    /// Settings were read from a file the user picked.
    Imported(Settings),
    /// The window was opened; the monitor runs at this rate.
    Open(u32),
    /// The pending settings were applied.
    Apply,
}

/// The applied settings, the pending copy, the tab shown, and which colour
/// picker is open.
#[derive(Debug, Clone, Copy)]
pub struct SettingsSession {
    pub settings: Settings,
    pub temp_settings: Settings,
    pub current_tab: SettingsTab,
    pub show_border_color_picker: bool,
    pub show_click_color_picker: bool,
}

/// Events that can be handled without a Rust panic.
pub open spec fn event_ok(s: SettingsSession, e: SettingsEvent, screen_width: u32, screen_height: u32) -> bool {
    match e {
        SettingsEvent::Edit(m) => message_ok(s.temp_settings, m, screen_width, screen_height),
        _ => true,
    }
}

/// The pending copy after an edit (kept folded in proofs about whole
/// sessions; `reveal` unfolds it).
#[verifier::opaque]
pub open spec fn edited_settings(
    t: Settings,
    m: SettingsMessage,
    monitor_hz: u32,
    screen_width: u32,
    screen_height: u32,
) -> Settings {
    apply_message_spec(t, m, monitor_hz, screen_width, screen_height)
}

/// The session after an event.
pub open spec fn session_step(
    s: SettingsSession,
    e: SettingsEvent,
    monitor_hz: u32,
    screen_width: u32,
    screen_height: u32,
) -> SettingsSession {
    match e {
        SettingsEvent::Edit(m) => SettingsSession {
            temp_settings: edited_settings(s.temp_settings, m, monitor_hz, screen_width, screen_height),
            ..s
        },
        SettingsEvent::SwitchTab(t) => SettingsSession { current_tab: t, ..s },
        SettingsEvent::ToggleBorderColorPicker => SettingsSession {
            show_border_color_picker: !s.show_border_color_picker,
            show_click_color_picker: false,
            ..s
        },
        SettingsEvent::ToggleClickColorPicker => SettingsSession {
            show_click_color_picker: !s.show_click_color_picker,
            show_border_color_picker: false,
            ..s
        },
        SettingsEvent::BorderColorPickerSubmit(c) => SettingsSession {
            temp_settings: Settings { border_color: c, ..s.temp_settings },
            show_border_color_picker: false,
            ..s
        },
        SettingsEvent::BorderColorPickerCancel => SettingsSession { show_border_color_picker: false, ..s },
        SettingsEvent::ClickColorPickerSubmit(c) => SettingsSession {
            temp_settings: Settings { click_highlight_color: c, ..s.temp_settings },
            show_click_color_picker: false,
            ..s
        },
        SettingsEvent::ClickColorPickerCancel => SettingsSession { show_click_color_picker: false, ..s },
        SettingsEvent::Imported(i) => SettingsSession { temp_settings: i, ..s },
        SettingsEvent::Open(hz) => SettingsSession {
            temp_settings: Settings { monitor_hz: hz, ..s.settings },
            current_tab: SettingsTab::General,
            ..s
        },
        SettingsEvent::Apply => SettingsSession { settings: s.temp_settings, ..s },
    }
}

impl SettingsSession {
    /// A session with these applied settings, their copy pending, on the
    /// General tab, with no picker open.
    pub fn new(settings: Settings) -> (r: Self)
        ensures
            r.settings == settings,
            r.temp_settings == settings,
            r.current_tab == SettingsTab::General,
            !r.show_border_color_picker,
            !r.show_click_color_picker,
    {
        SettingsSession {
            settings,
            temp_settings: settings,
            current_tab: SettingsTab::General,
            show_border_color_picker: false,
            show_click_color_picker: false,
        }
    }

    /// Apply an edit to the pending copy.
    fn edit(&mut self, m: &SettingsMessage, monitor_hz: u32, screen_width: u32, screen_height: u32)
        requires
            message_ok(old(self).temp_settings, *m, screen_width, screen_height),
        ensures
            *final(self) == (SettingsSession {
                temp_settings: edited_settings(
                    old(self).temp_settings,
                    *m,
                    monitor_hz,
                    screen_width,
                    screen_height,
                ),
                ..*old(self)
            }),
    {
        proof {
            reveal(edited_settings);
        }
        let mut t = self.temp_settings;
        apply_settings_message(&mut t, m, monitor_hz, screen_width, screen_height);
        self.temp_settings = t;
    }

    /// Handle an event of the settings window. `monitor_hz` is the
    /// monitor's refresh rate and (`screen_width`, `screen_height`) the
    /// screen size.
    #[verifier::spinoff_prover]
    #[verifier::rlimit(50)]
    pub fn handle(&mut self, e: &SettingsEvent, monitor_hz: u32, screen_width: u32, screen_height: u32)
        requires
            event_ok(*old(self), *e, screen_width, screen_height),
        ensures
            *final(self) == session_step(*old(self), *e, monitor_hz, screen_width, screen_height),
    {
        match e {
            SettingsEvent::Edit(m) => {
                self.edit(m, monitor_hz, screen_width, screen_height);
            },
            SettingsEvent::SwitchTab(t) => {
                self.current_tab = *t;
            },
            SettingsEvent::ToggleBorderColorPicker => {
                self.show_border_color_picker = !self.show_border_color_picker;
                self.show_click_color_picker = false;
            },
            SettingsEvent::ToggleClickColorPicker => {
                self.show_click_color_picker = !self.show_click_color_picker;
                self.show_border_color_picker = false;
            },
            SettingsEvent::BorderColorPickerSubmit(c) => {
                self.temp_settings.border_color = *c;
                self.show_border_color_picker = false;
            },
            SettingsEvent::BorderColorPickerCancel => {
                self.show_border_color_picker = false;
            },
            SettingsEvent::ClickColorPickerSubmit(c) => {
                self.temp_settings.click_highlight_color = *c;
                self.show_click_color_picker = false;
            },
            SettingsEvent::ClickColorPickerCancel => {
                self.show_click_color_picker = false;
            },
            SettingsEvent::Imported(i) => {
                self.temp_settings = *i;
            },
            SettingsEvent::Open(hz) => {
                let mut t = self.settings;
                t.monitor_hz = *hz;
                self.temp_settings = t;
                self.current_tab = SettingsTab::General;
            },
            SettingsEvent::Apply => {
                self.settings = self.temp_settings;
            },
        }
    }
}

/// Only Apply changes the applied settings, and it makes them exactly the
/// pending copy; every other event leaves them as they were.
pub proof fn lemma_only_apply_commits(
    s: SettingsSession,
    e: SettingsEvent,
    monitor_hz: u32,
    screen_width: u32,
    screen_height: u32,
)
    ensures
        e is Apply ==> session_step(s, e, monitor_hz, screen_width, screen_height).settings == s.temp_settings,
        !(e is Apply) ==> session_step(s, e, monitor_hz, screen_width, screen_height).settings == s.settings,
{
}

/// At most one colour picker is open after a toggle.
pub proof fn lemma_one_picker_open(s: SettingsSession, monitor_hz: u32, screen_width: u32, screen_height: u32)
    ensures
        !(session_step(s, SettingsEvent::ToggleBorderColorPicker, monitor_hz, screen_width, screen_height).show_click_color_picker),
        !(session_step(s, SettingsEvent::ToggleClickColorPicker, monitor_hz, screen_width, screen_height).show_border_color_picker),
{
}

} // verus!
