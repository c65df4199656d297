# RustFrame (verified core)

RustFrame shares a region of the screen in video meetings: a hollow border
marks the region, and a preview window shows it for the meeting application
to share. This crate holds the application's logic, each function proved
against its contract with Verus:

- `settings`, `ui::settings`, `settings_session`, `settings_dialog`: the
  settings, the messages of the settings window and the pending copy they
  edit until applied, presets, colour texts, the validation of custom sizes
  and what the Windows settings dialog saves;
- `geometry`, `hit_test`, `ui::border_frame`, `ui::capture_border`,
  `ui::selection_overlay`, `ui::overlay`, `ui::theme`: the capture region,
  the border window's resizing, hit testing, pixels and colours;
- `window_filter`, `platform::window_enumerator`, `window_enumeration`: which
  windows are shared and which applications are offered;
- `mouse_hook`, `platform::input`, `platform::windows`, `ui::destination`:
  click records and highlights, hook state, the preview's frames;
- `platform_info`, `rec_indicator`, `session`, `single_instance`, `text`,
  `utils`: platform facts, the REC badge, the capture session, the lock file,
  and the text handling they share.

`app/` is the program around the library: it reads the operating system, the
environment and the settings file, and hands the values in; a text console
there drives the capture session, the settings window and the preview's state
from commands on standard input.
