//! What the running platform is and which capture features it offers.
//!
//! The operating system is handed in as an `OsKind`, and on Linux the text of
//! `/etc/os-release` (read by the application); everything else is decided here.
use vstd::prelude::*;
use crate::text::{chars_of, push_char};

verus! {

/// The operating systems the application runs on.
#[derive(Debug, Clone, Copy, PartialEq, Eq, Structural)]
pub enum OsKind {
    Windows,
    MacOs,
    Linux,
}

/// Abstract value of a capture method: (id, name, description, recommended,
/// hardware accelerated).
pub type MethodView = (Seq<char>, Seq<char>, Seq<char>, bool, bool);

/// Abstract value of a capture method tagged with its platform: (platform
/// name, platform type, the method).
pub type PlatformMethodView = (Seq<char>, Seq<char>, MethodView);

/// A capture method available on the running platform.
#[derive(Debug, Clone)]
pub struct CaptureMethodInfo {
    /// Internal identifier.
    pub id: String,
    /// Display name.
    pub name: String,
    pub description: String,
    /// Whether this is the recommended method.
    pub recommended: bool,
    pub hardware_accelerated: bool,
}

impl View for CaptureMethodInfo {
    type V = MethodView;

    open spec fn view(&self) -> MethodView {
        (self.id@, self.name@, self.description@, self.recommended, self.hardware_accelerated)
    }
}

/// A capture method of some platform (for the developer preview of all
/// platforms' settings).
#[derive(Debug, Clone)]
pub struct PlatformCaptureMethodInfo {
    /// Platform name (Windows, macOS, Linux).
    pub platform_name: String,
    /// Platform type (windows, macos, linux).
    pub platform_type: String,
    pub id: String,
    pub name: String,
    pub description: String,
    pub recommended: bool,
    pub hardware_accelerated: bool,
}

impl View for PlatformCaptureMethodInfo {
    type V = PlatformMethodView;

    open spec fn view(&self) -> PlatformMethodView {
        (
            self.platform_name@,
            self.platform_type@,
            (self.id@, self.name@, self.description@, self.recommended, self.hardware_accelerated),
        )
    }
}

/// What the platform's windows and renderer support.
#[derive(Debug, Clone, Copy, PartialEq, Eq, Structural)]
pub struct PlatformCapabilities {
    pub supports_custom_rendering: bool,
    pub supports_transparency: bool,
    pub supports_hardware_acceleration: bool,
    /// Advanced Windows API options (Windows only).
    pub has_winapi_options: bool,
}

/// Everything the settings window shows about the platform.
#[derive(Debug, Clone)]
pub struct PlatformInfo {
    /// Operating system name ("Windows", "macOS", "Linux").
    pub os_name: String,
    /// Operating system type ("windows", "macos", "linux").
    pub os_type: String,
    pub os_version: String,
    pub available_capture_methods: Vec<CaptureMethodInfo>,
    pub all_platforms_capture_methods: Vec<PlatformCaptureMethodInfo>,
    pub capabilities: PlatformCapabilities,
}

/// The display name of an operating system.
pub open spec fn os_name_spec(os: OsKind) -> Seq<char> {
    match os {
        OsKind::Windows => "Windows"@,
        OsKind::MacOs => "macOS"@,
        OsKind::Linux => "Linux"@,
    }
}

/// The lower-case type name of an operating system, as Rust names it.
pub open spec fn os_type_spec(os: OsKind) -> Seq<char> {
    match os {
        OsKind::Windows => "windows"@,
        OsKind::MacOs => "macos"@,
        OsKind::Linux => "linux"@,
    }
}

pub open spec fn wgc_method() -> MethodView {
    (
        "Wgc"@,
        "Windows Graphics Capture"@,
        "Modern, GPU-accelerated capture using Windows.Graphics.Capture API. Best performance and compatibility with modern Windows applications."@,
        true,
        true,
    )
}

pub open spec fn gdi_method() -> MethodView {
    (
        "GdiCopy"@,
        "GDI BitBlt"@,
        "Legacy GDI-based screen capture. More compatible with older applications but slower performance."@,
        false,
        false,
    )
}

pub open spec fn macos_method() -> MethodView {
    (
        "CoreGraphics"@,
        "ScreenCaptureKit"@,
        "Modern macOS screen capture using ScreenCaptureKit. Requires macOS 12.3+."@,
        true,
        true,
    )
}

pub open spec fn linux_method() -> MethodView {
    (
        "CoreGraphics"@,
        "PipeWire / X11"@,
        "Wayland/X11 screen capture. Automatically detects compositor."@,
        true,
        false,
    )
}

/// The capture methods of an operating system, recommended first.
pub open spec fn available_methods_spec(os: OsKind) -> Seq<MethodView> {
    match os {
        OsKind::Windows => seq![wgc_method(), gdi_method()],
        OsKind::MacOs => seq![macos_method()],
        OsKind::Linux => seq![linux_method()],
    }
}

/// The capture methods of every platform, Windows first, then macOS, then
/// Linux.
pub open spec fn all_platform_methods_spec() -> Seq<PlatformMethodView> {
    seq![
        ("Windows"@, "windows"@, wgc_method()),
        ("Windows"@, "windows"@, gdi_method()),
        ("macOS"@, "macos"@, macos_method()),
        ("Linux"@, "linux"@, linux_method()),
    ]
}

/// The capabilities of an operating system.
pub open spec fn capabilities_spec(os: OsKind) -> PlatformCapabilities {
    PlatformCapabilities {
        supports_custom_rendering: true,
        supports_transparency: true,
        supports_hardware_acceleration: os != OsKind::Linux,
        has_winapi_options: os == OsKind::Windows,
    }
}

// ---------------------------------------------------------------------------
// /etc/os-release

/// The key of the line that names the distribution.
pub open spec fn pretty_key() -> Seq<char> {
    seq!['P', 'R', 'E', 'T', 'T', 'Y', '_', 'N', 'A', 'M', 'E', '=']
}

/// Where the line that starts at `from` ends: the index of the next
/// line feed, or the end of the text.
pub open spec fn line_end(s: Seq<char>, from: int) -> int
    decreases s.len() - from,
{
    if from >= s.len() {
        s.len() as int
    } else if s[from] == '\n' {
        from
    } else {
        line_end(s, from + 1)
    }
}

/// Where the content of the line that starts at `start` stops: before its
/// line feed, and before a carriage return that comes right before it.
pub open spec fn line_stop(s: Seq<char>, start: int) -> int {
    let e = line_end(s, start);
    if e < s.len() && e > start && s[e - 1] == '\r' {
        e - 1
    } else {
        e
    }
}

/// Whether `p` occurs in `s` at `a`, ending at or before `stop`.
pub open spec fn has_prefix_at(s: Seq<char>, a: int, stop: int, p: Seq<char>) -> bool {
    &&& 0 <= a
    &&& a + p.len() <= stop
    &&& stop <= s.len()
    &&& s.subrange(a, a + p.len()) == p
}

/// Where the text from `a` to `stop` continues once every leading copy of
/// `p` is removed.
pub open spec fn after_prefixes(s: Seq<char>, a: int, stop: int, p: Seq<char>) -> int
    decreases stop - a,
{
    if p.len() > 0 && has_prefix_at(s, a, stop, p) {
        after_prefixes(s, a + p.len(), stop, p)
    } else {
        a
    }
}

/// Where the text from `a` to `stop` continues once its leading quotes are
/// removed.
pub open spec fn skip_quotes(s: Seq<char>, a: int, stop: int) -> int
    decreases stop - a,
{
    if a < stop && 0 <= a && stop <= s.len() && s[a] == '"' {
        skip_quotes(s, a + 1, stop)
    } else {
        a
    }
}

/// Where the text from `a` to `b` stops once its trailing quotes are
/// removed.
pub open spec fn drop_quotes(s: Seq<char>, a: int, b: int) -> int
    decreases b - a,
{
    if a < b && 0 <= a && b <= s.len() && s[b - 1] == '"' {
        drop_quotes(s, a, b - 1)
    } else {
        b
    }
}

/// The value of a `PRETTY_NAME=` line that starts at `start`: the line
/// without every leading copy of the key, and without leading and trailing
/// quotes.
pub open spec fn pretty_value(s: Seq<char>, start: int) -> Seq<char> {
    let stop = line_stop(s, start);
    let a = skip_quotes(s, after_prefixes(s, start, stop, pretty_key()), stop);
    s.subrange(a, drop_quotes(s, a, stop))
}

/// The value of the first line, from the one that starts at `start` on,
/// that begins with `PRETTY_NAME=`.
pub open spec fn first_pretty_name(s: Seq<char>, start: int) -> Option<Seq<char>>
    decreases s.len() - start,
{
    if start < 0 || start >= s.len() {
        None
    } else if has_prefix_at(s, start, line_stop(s, start), pretty_key()) {
        Some(pretty_value(s, start))
    } else {
        let e = line_end(s, start);
        if e >= s.len() {
            None
        } else {
            proof {
                lemma_line_end_bounds(s, start);
            }
            first_pretty_name(s, e + 1)
        }
    }
}

/// A line ends at or after its start and within the text.
pub proof fn lemma_line_end_bounds(s: Seq<char>, from: int)
    requires
        0 <= from <= s.len(),
    ensures
        from <= line_end(s, from) <= s.len(),
        line_end(s, from) < s.len() ==> s[line_end(s, from)] == '\n',
    decreases s.len() - from,
{
    if from < s.len() && s[from] != '\n' {
        lemma_line_end_bounds(s, from + 1);
    }
}

proof fn lemma_after_prefixes_bounds(s: Seq<char>, a: int, stop: int, p: Seq<char>)
    requires
        0 <= a <= stop <= s.len(),
    ensures
        a <= after_prefixes(s, a, stop, p) <= stop,
    decreases stop - a,
{
    if p.len() > 0 && has_prefix_at(s, a, stop, p) {
        lemma_after_prefixes_bounds(s, a + p.len(), stop, p);
    }
}

proof fn lemma_skip_quotes_bounds(s: Seq<char>, a: int, stop: int)
    requires
        0 <= a <= stop <= s.len(),
    ensures
        a <= skip_quotes(s, a, stop) <= stop,
    decreases stop - a,
{
    if a < stop && s[a] == '"' {
        lemma_skip_quotes_bounds(s, a + 1, stop);
    }
}

proof fn lemma_drop_quotes_bounds(s: Seq<char>, a: int, b: int)
    requires
        0 <= a <= b <= s.len(),
    ensures
        a <= drop_quotes(s, a, b) <= b,
    decreases b - a,
{
    if a < b && s[b - 1] == '"' {
        lemma_drop_quotes_bounds(s, a, b - 1);
    }
}

proof fn lemma_skip_quotes_stops(s: Seq<char>, a: int, stop: int)
    requires
        0 <= a <= stop <= s.len(),
    ensures
        skip_quotes(s, a, stop) == stop || s[skip_quotes(s, a, stop)] != '"',
    decreases stop - a,
{
    if a < stop && s[a] == '"' {
        lemma_skip_quotes_stops(s, a + 1, stop);
    }
}

proof fn lemma_drop_quotes_stops(s: Seq<char>, a: int, b: int)
    requires
        0 <= a <= b <= s.len(),
    ensures
        drop_quotes(s, a, b) == a || s[drop_quotes(s, a, b) - 1] != '"',
    decreases b - a,
{
    if a < b && s[b - 1] == '"' {
        lemma_drop_quotes_stops(s, a, b - 1);
    }
}

/// The distribution's name never starts or ends with a quote, and never
/// holds a line break.
pub proof fn lemma_pretty_value_unquoted(s: Seq<char>, start: int)
    requires
        0 <= start < s.len(),
    ensures
        ({
            let v = pretty_value(s, start);
            &&& v.len() > 0 ==> v[0] != '"' && v.last() != '"'
            &&& forall|i: int| 0 <= i < v.len() ==> v[i] != '\n'
        }),
{
    lemma_line_end_bounds(s, start);
    let e = line_end(s, start);
    let stop = line_stop(s, start);
    assert(start <= stop <= s.len());
    lemma_after_prefixes_bounds(s, start, stop, pretty_key());
    let a0 = after_prefixes(s, start, stop, pretty_key());
    lemma_skip_quotes_bounds(s, a0, stop);
    lemma_skip_quotes_stops(s, a0, stop);
    let a = skip_quotes(s, a0, stop);
    lemma_drop_quotes_bounds(s, a, stop);
    lemma_drop_quotes_stops(s, a, stop);
    let b = drop_quotes(s, a, stop);
    let v = s.subrange(a, b);
    lemma_no_line_feed_before_end(s, start, start);
    assert forall|i: int| 0 <= i < v.len() implies v[i] != '\n' by {
        assert(v[i] == s[a + i]);
        assert(start <= a + i < e);
    }
}

/// No line feed lies between a line's start and its end.
proof fn lemma_no_line_feed_before_end(s: Seq<char>, start: int, from: int)
    requires
        0 <= start <= from <= s.len(),
        forall|k: int| start <= k < from ==> s[k] != '\n',
        line_end(s, from) == line_end(s, start),
    ensures
        forall|k: int| start <= k < line_end(s, start) ==> s[k] != '\n',
    decreases s.len() - from,
{
    if from < s.len() && s[from] != '\n' {
        lemma_no_line_feed_before_end(s, start, from + 1);
    }
}

/// Where the line that starts at `from` ends.
fn find_line_end(s: &Vec<char>, from: usize) -> (r: usize)
    requires
        from <= s.len(),
    ensures
        r == line_end(s@, from as int),
        from <= r <= s.len(),
{
    let mut i = from;
    while i < s.len() && s[i] != '\n'
        invariant
            from <= i <= s.len(),
            line_end(s@, i as int) == line_end(s@, from as int),
        decreases s.len() - i,
    {
        i = i + 1;
    }
    i
}

/// Whether `p` occurs in `s` at `a`, ending at or before `stop`.
fn prefix_at(s: &Vec<char>, a: usize, stop: usize, p: &Vec<char>) -> (r: bool)
    requires
        stop <= s.len(),
    ensures
        r == has_prefix_at(s@, a as int, stop as int, p@),
{
    if a > stop || stop - a < p.len() {
        return false;
    }
    let mut j: usize = 0;
    while j < p.len()
        invariant
            a + p.len() <= stop <= s.len(),
            0 <= j <= p.len(),
            forall|k: int| 0 <= k < j ==> s@[a + k] == p@[k],
        decreases p.len() - j,
    {
        if s[a + j] != p[j] {
            assert(s@.subrange(a as int, a + p.len())[j as int] != p@[j as int]);
            return false;
        }
        j = j + 1;
    }
    assert(s@.subrange(a as int, a + p.len()) =~= p@);
    true
}

/// The text of `s` from `a` to `b`.
fn text_between(s: &Vec<char>, a: usize, b: usize) -> (r: String)
    requires
        a <= b <= s.len(),
    ensures
        r@ == s@.subrange(a as int, b as int),
{
    let mut out = String::new();
    let mut i = a;
    while i < b
        invariant
            a <= i <= b <= s.len(),
            out@ == s@.subrange(a as int, i as int),
        decreases b - i,
    {
        push_char(&mut out, s[i]);
        assert(s@.subrange(a as int, i + 1) =~= s@.subrange(a as int, i as int).push(s@[i as int]));
        i = i + 1;
    }
    out
}

/// The distribution's name from the text of `/etc/os-release`: the value of
/// the first line that begins with `PRETTY_NAME=`, with the key and the
/// surrounding quotes removed.
pub fn pretty_name_from_os_release(contents: &str) -> (r: Option<String>)
    ensures
        match r {
            Some(v) => first_pretty_name(contents@, 0) == Some(v@),
            None => first_pretty_name(contents@, 0) is None,
        },
{
    let s = chars_of(contents);
    let key = chars_of("PRETTY_NAME=");
    proof {
        reveal_strlit("PRETTY_NAME=");
        assert(key@ =~= pretty_key());
    }
    let mut start: usize = 0;
    while start < s.len()
        invariant
            0 <= start <= s.len(),
            s@ == contents@,
            key@ == pretty_key(),
            first_pretty_name(s@, start as int) == first_pretty_name(s@, 0),
        decreases s.len() - start,
    {
        let e = find_line_end(&s, start);
        let stop: usize = if e < s.len() && e > start && s[e - 1] == '\r' {
            e - 1
        } else {
            e
        };
        assert(stop == line_stop(s@, start as int));
        if prefix_at(&s, start, stop, &key) {
            let mut a = start;
            while prefix_at(&s, a, stop, &key)
                invariant
                    start <= a <= stop <= s.len(),
                    key@ == pretty_key(),
                    after_prefixes(s@, a as int, stop as int, pretty_key())
                        == after_prefixes(s@, start as int, stop as int, pretty_key()),
                decreases stop - a,
            {
                a = a + key.len();
            }
            let ghost a0 = a;
            while a < stop && s[a] == '"'
                invariant
                    a0 <= a <= stop <= s.len(),
                    skip_quotes(s@, a as int, stop as int) == skip_quotes(s@, a0 as int, stop as int),
                decreases stop - a,
            {
                a = a + 1;
            }
            let mut b = stop;
            while b > a && s[b - 1] == '"'
                invariant
                    a <= b <= stop <= s.len(),
                    drop_quotes(s@, a as int, b as int) == drop_quotes(s@, a as int, stop as int),
                decreases b - a,
            {
                b = b - 1;
            }
            let v = text_between(&s, a, b);
            return Some(v);
        }
        if e >= s.len() {
            return None;
        }
        proof {
            lemma_line_end_bounds(s@, start as int);
        }
        start = e + 1;
    }
    None
}

// ---------------------------------------------------------------------------
// Platform facts

/// The display name of an operating system.
pub fn get_os_name(os: OsKind) -> (r: String)
    ensures
        r@ == os_name_spec(os),
{
    match os {
        OsKind::Windows => "Windows".to_owned(),
        OsKind::MacOs => "macOS".to_owned(),
        OsKind::Linux => "Linux".to_owned(),
    }
}

/// The lower-case type name of an operating system.
pub fn get_os_type(os: OsKind) -> (r: String)
    ensures
        r@ == os_type_spec(os),
{
    match os {
        OsKind::Windows => "windows".to_owned(),
        OsKind::MacOs => "macos".to_owned(),
        OsKind::Linux => "linux".to_owned(),
    }
}

/// The version text on Windows.
pub fn get_windows_version() -> (r: String)
    ensures
        r@ == "Windows"@,
{
    "Windows".to_owned()
}

/// The version text on macOS.
pub fn get_macos_version() -> (r: String)
    ensures
        r@ == "Unknown"@,
{
    "Unknown".to_owned()
}

/// The version text on Linux: the distribution's name from the text of
/// `/etc/os-release` (`None` where it could not be read), or "Unknown".
pub fn get_linux_version(os_release: Option<&str>) -> (r: String)
    ensures
        r@ == (match os_release {
            Some(text) => match first_pretty_name(text@, 0) {
                Some(v) => v,
                None => "Unknown"@,
            },
            None => "Unknown"@,
        }),
{
    match os_release {
        Some(text) => match pretty_name_from_os_release(text) {
            Some(v) => v,
            None => "Unknown".to_owned(),
        },
        None => "Unknown".to_owned(),
    }
}

/// The version text of the operating system: "Windows" on Windows,
/// "Unknown" on macOS; on Linux the distribution's name from the text of
/// `/etc/os-release` (`None` where it could not be read), or "Unknown".
pub fn get_os_version(os: OsKind, os_release: Option<&str>) -> (r: String)
    ensures
        os == OsKind::Windows ==> r@ == "Windows"@,
        os == OsKind::MacOs ==> r@ == "Unknown"@,
        os == OsKind::Linux ==> r@ == (match os_release {
            Some(text) => match first_pretty_name(text@, 0) {
                Some(v) => v,
                None => "Unknown"@,
            },
            None => "Unknown"@,
        }),
{
    match os {
        OsKind::Windows => get_windows_version(),
        OsKind::MacOs => get_macos_version(),
        OsKind::Linux => get_linux_version(os_release),
    }
}

fn method(id: &str, name: &str, description: &str, recommended: bool, hardware_accelerated: bool) -> (r: CaptureMethodInfo)
    ensures
        r@ == (id@, name@, description@, recommended, hardware_accelerated),
{
    CaptureMethodInfo {
        id: id.to_owned(),
        name: name.to_owned(),
        description: description.to_owned(),
        recommended,
        hardware_accelerated,
    }
}

fn platform_method(platform_name: &str, platform_type: &str, m: CaptureMethodInfo) -> (r: PlatformCaptureMethodInfo)
    ensures
        r@ == (platform_name@, platform_type@, m@),
{
    PlatformCaptureMethodInfo {
        platform_name: platform_name.to_owned(),
        platform_type: platform_type.to_owned(),
        id: m.id,
        name: m.name,
        description: m.description,
        recommended: m.recommended,
        hardware_accelerated: m.hardware_accelerated,
    }
}

fn wgc() -> (r: CaptureMethodInfo)
    ensures
        r@ == wgc_method(),
{
    method(
        "Wgc",
        "Windows Graphics Capture",
        "Modern, GPU-accelerated capture using Windows.Graphics.Capture API. Best performance and compatibility with modern Windows applications.",
        true,
        true,
    )
}

fn gdi() -> (r: CaptureMethodInfo)
    ensures
        r@ == gdi_method(),
{
    method(
        "GdiCopy",
        "GDI BitBlt",
        "Legacy GDI-based screen capture. More compatible with older applications but slower performance.",
        false,
        false,
    )
}

fn screen_capture_kit() -> (r: CaptureMethodInfo)
    ensures
        r@ == macos_method(),
{
    method(
        "CoreGraphics",
        "ScreenCaptureKit",
        "Modern macOS screen capture using ScreenCaptureKit. Requires macOS 12.3+.",
        true,
        true,
    )
}

fn pipewire() -> (r: CaptureMethodInfo)
    ensures
        r@ == linux_method(),
{
    method(
        "CoreGraphics",
        "PipeWire / X11",
        "Wayland/X11 screen capture. Automatically detects compositor.",
        true,
        false,
    )
}

/// The views of a list of capture methods.
pub open spec fn methods_view(ms: Seq<CaptureMethodInfo>) -> Seq<MethodView> {
    ms.map_values(|m: CaptureMethodInfo| m@)
}

/// The views of a list of platform capture methods.
pub open spec fn platform_methods_view(ms: Seq<PlatformCaptureMethodInfo>) -> Seq<PlatformMethodView> {
    ms.map_values(|m: PlatformCaptureMethodInfo| m@)
}

/// The capture methods of an operating system.
pub fn get_available_capture_methods(os: OsKind) -> (r: Vec<CaptureMethodInfo>)
    ensures
        methods_view(r@) == available_methods_spec(os),
{
    let mut v: Vec<CaptureMethodInfo> = Vec::new();
    match os {
        OsKind::Windows => {
            v.push(wgc());
            v.push(gdi());
        },
        OsKind::MacOs => {
            v.push(screen_capture_kit());
        },
        OsKind::Linux => {
            v.push(pipewire());
        },
    }
    assert(methods_view(v@) =~= available_methods_spec(os));
    v
}

/// The capture methods of every platform.
pub fn get_all_platforms_capture_methods() -> (r: Vec<PlatformCaptureMethodInfo>)
    ensures
        platform_methods_view(r@) == all_platform_methods_spec(),
{
    let mut v: Vec<PlatformCaptureMethodInfo> = Vec::new();
    v.push(platform_method("Windows", "windows", wgc()));
    v.push(platform_method("Windows", "windows", gdi()));
    v.push(platform_method("macOS", "macos", screen_capture_kit()));
    v.push(platform_method("Linux", "linux", pipewire()));
    assert(platform_methods_view(v@) =~= all_platform_methods_spec());
    v
}

/// The capabilities of an operating system: every platform renders its own
/// transparent windows; Linux has no hardware acceleration, and only Windows
/// has Windows API options.
pub fn get_platform_capabilities(os: OsKind) -> (r: PlatformCapabilities)
    ensures
        r == capabilities_spec(os),
{
    PlatformCapabilities {
        supports_custom_rendering: true,
        supports_transparency: true,
        supports_hardware_acceleration: match os {
            OsKind::Linux => false,
            _ => true,
        },
        has_winapi_options: match os {
            OsKind::Windows => true,
            _ => false,
        },
    }
}

impl PlatformInfo {
    /// Everything about the platform `os`; `os_release` is the text of
    /// `/etc/os-release` where it could be read.
    pub fn detect(os: OsKind, os_release: Option<&str>) -> (r: Self)
        ensures
            r.os_name@ == os_name_spec(os),
            r.os_type@ == os_type_spec(os),
            os == OsKind::Windows ==> r.os_version@ == "Windows"@,
            os == OsKind::MacOs ==> r.os_version@ == "Unknown"@,
            os == OsKind::Linux ==> r.os_version@ == (match os_release {
                Some(text) => match first_pretty_name(text@, 0) {
                    Some(v) => v,
                    None => "Unknown"@,
                },
                None => "Unknown"@,
            }),
            methods_view(r.available_capture_methods@) == available_methods_spec(os),
            platform_methods_view(r.all_platforms_capture_methods@) == all_platform_methods_spec(),
            r.capabilities == capabilities_spec(os),
    {
        PlatformInfo {
            os_name: get_os_name(os),
            os_type: get_os_type(os),
            os_version: get_os_version(os, os_release),
            available_capture_methods: get_available_capture_methods(os),
            all_platforms_capture_methods: get_all_platforms_capture_methods(),
            capabilities: get_platform_capabilities(os),
        }
    }
}

} // verus!
