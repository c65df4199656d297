//! The Windows settings dialog's outcome: what its controls give when the
//! user saves. The dialog window itself is the application's.
use vstd::prelude::*;
use crate::text::{chars_of, parse_u32, parse_u32_spec};

verus! {

/// The settings the dialog edits.
#[derive(Debug, Clone, Copy, PartialEq, Eq, Structural)]
pub struct DialogSettings {
    pub show_cursor: bool,
    pub show_border: bool,
    /// Production mode: the preview is kept out of screen captures.
    pub exclude_from_capture: bool,
    pub border_width: u32,
}

/// A value clamped to `[lo, hi]`.
pub open spec fn clamp_spec(v: u32, lo: u32, hi: u32) -> u32 {
    if v < lo {
        lo
    } else if v > hi {
        hi
    } else {
        v
    }
}

/// The settings after a save: each checkbox that exists sets its flag (the
/// production checkbox exists only in developer mode), and a typed border
/// width that reads as a number is clamped to `[min_width, max_width]`; a
/// missing, empty or unreadable width keeps the old one.
pub open spec fn dialog_result_spec(
    current: DialogSettings,
    cursor_checked: Option<bool>,
    border_checked: Option<bool>,
    dev_mode: bool,
    prod_checked: Option<bool>,
    width_text: Option<Seq<char>>,
    min_width: u32,
    max_width: u32,
) -> DialogSettings {
    DialogSettings {
        show_cursor: match cursor_checked {
            Some(c) => c,
            None => current.show_cursor,
        },
        show_border: match border_checked {
            Some(c) => c,
            None => current.show_border,
        },
        exclude_from_capture: match prod_checked {
            Some(c) => if dev_mode {
                c
            } else {
                current.exclude_from_capture
            },
            None => current.exclude_from_capture,
        },
        border_width: match width_text {
            Some(t) => match parse_u32_spec(t) {
                Some(v) => clamp_spec(v, min_width, max_width),
                None => current.border_width,
            },
            None => current.border_width,
        },
    }
}

/// The settings the dialog saves, from the states of its controls (`None`
/// where a control does not exist) and the text typed as border width.
pub fn dialog_result(
    current: DialogSettings,
    cursor_checked: Option<bool>,
    border_checked: Option<bool>,
    dev_mode: bool,
    prod_checked: Option<bool>,
    width_text: Option<&str>,
    min_width: u32,
    max_width: u32,
) -> (r: DialogSettings)
    requires
        min_width <= max_width,
    ensures
        r == dialog_result_spec(
            current,
            cursor_checked,
            border_checked,
            dev_mode,
            prod_checked,
            match width_text {
                Some(t) => Some(t@),
                None => None,
            },
            min_width,
            max_width,
        ),
{
    let mut out = current;
    if let Some(c) = cursor_checked {
        out.show_cursor = c;
    }
    if let Some(c) = border_checked {
        out.show_border = c;
    }
    if dev_mode {
        if let Some(c) = prod_checked {
            out.exclude_from_capture = c;
        }
    }
    if let Some(t) = width_text {
        let chars = chars_of(t);
        if chars.len() > 0 {
            if let Some(v) = parse_u32(&chars) {
                out.border_width = if v < min_width {
                    min_width
                } else if v > max_width {
                    max_width
                } else {
                    v
                };
            }
        }
    }
    out
}

/// The dialog where the system has no Win32 dialog: nothing is shown and
/// nothing saved.
pub fn show_settings_dialog(_current: &DialogSettings, _dev_mode: bool) -> (r: Option<DialogSettings>)
    ensures
        r is None,
{
    None
}

/// A saved border width always lies within the limits, and the dialog never
/// changes production mode outside developer mode.
pub proof fn lemma_dialog_result_bounded(
    current: DialogSettings,
    cursor_checked: Option<bool>,
    border_checked: Option<bool>,
    dev_mode: bool,
    prod_checked: Option<bool>,
    width_text: Option<Seq<char>>,
    min_width: u32,
    max_width: u32,
)
    requires
        min_width <= max_width,
        min_width <= current.border_width <= max_width,
    ensures
        ({
            let r = dialog_result_spec(
                current,
                cursor_checked,
                border_checked,
                dev_mode,
                prod_checked,
                width_text,
                min_width,
                max_width,
            );
            &&& min_width <= r.border_width <= max_width
            &&& !dev_mode ==> r.exclude_from_capture == current.exclude_from_capture
        }),
{
}

} // verus!
