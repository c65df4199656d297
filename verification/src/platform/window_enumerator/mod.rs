//! Enumerating the windows that can be shared, grouped by application, for
//! the Share Content dialog.
//!
//! Each platform's enumerator takes what the operating system reported (read
//! by the application) and decides which windows are listed and under which
//! application.
use std::collections::HashMap;
use vstd::prelude::*;
use crate::text::{all_white_space, lemma_trim_empty, push_decimal, trim_chars, chars_of};

pub mod linux_impl;
pub mod macos;
pub mod unsupported_impl;
pub mod windows_impl;

verus! {

/// Abstract value of a window: (id, title).
pub type WindowView = (u32, Seq<char>);

/// Abstract value of an application: (bundle id, display name, windows).
pub type AppView = (Seq<char>, Seq<char>, Seq<WindowView>);

/// A window that can be shared or excluded.
#[derive(Debug, Clone)]
pub struct AvailableWindow {
    /// Platform window identifier (CGWindowID, HWND, X11 or Wayland id).
    pub id: u32,
    /// Title shown to the user; never empty.
    pub title: String,
}

impl View for AvailableWindow {
    type V = WindowView;

    open spec fn view(&self) -> WindowView {
        (self.id, self.title@)
    }
}

/// The views of a list of windows.
pub open spec fn windows_view(ws: Seq<AvailableWindow>) -> Seq<WindowView> {
    ws.map_values(|w: AvailableWindow| w@)
}

/// An application with its windows.
#[derive(Debug, Clone)]
pub struct AvailableApp {
    /// Bundle id on macOS; process name on Windows; application id on Linux.
    pub bundle_id: String,
    /// Display name, such as "Zoom".
    pub app_name: String,
    pub windows: Vec<AvailableWindow>,
}

impl View for AvailableApp {
    type V = AppView;

    open spec fn view(&self) -> AppView {
        (self.bundle_id@, self.app_name@, windows_view(self.windows@))
    }
}

/// The views of a list of applications.
pub open spec fn apps_view(apps: Seq<AvailableApp>) -> Seq<AppView> {
    apps.map_values(|a: AvailableApp| a@)
}

/// What every platform's enumerator offers: from what the operating system
/// reported (`Source`), the shareable windows grouped by application.
pub trait WindowEnumerator {
    /// What the application reads from the operating system for this
    /// platform.
    type Source;

    /// The applications this platform lists from what was reported.
    spec fn listed_apps(source: Self::Source) -> Seq<AppView>;

    /// The shareable windows, grouped by application: always the listing
    /// of `listed_apps`.
    fn enumerate_windows(source: Self::Source) -> (r: Result<Vec<AvailableApp>, String>)
        ensures
            r matches Ok(apps) && apps_view(apps@) == Self::listed_apps(source);

    /// Whether the platform reports each window's sharing state.
    fn supports_sharing_state() -> bool;
}

/// Enumerate the shareable windows with a platform's enumerator.
pub fn enumerate_windows<E: WindowEnumerator>(source: E::Source) -> (r: Result<Vec<AvailableApp>, String>)
    ensures
        r matches Ok(apps) && apps_view(apps@) == E::listed_apps(source),
{
    E::enumerate_windows(source)
}

/// A list with one more element pushed when it is given.
pub open spec fn push_some<A>(s: Seq<A>, x: Option<A>) -> Seq<A> {
    match x {
        Some(v) => s.push(v),
        None => s,
    }
}

// ---------------------------------------------------------------------------
// macOS: the window server's list and the running applications

/// One entry of the window server's list, each field as it was found (a
/// missing or unreadable number is `None`).
#[derive(Debug, Clone)]
pub struct CgWindowEntry {
    /// kCGWindowNumber.
    pub window_number: Option<i64>,
    /// kCGWindowLayer.
    pub layer: Option<i64>,
    /// kCGWindowName.
    pub name: Option<String>,
    /// kCGWindowOwnerPID.
    pub owner_pid: Option<i64>,
    /// kCGWindowSharingState.
    pub sharing_state: Option<i64>,
}

/// A window kept from the window server's list: (id, title, owner pid).
pub type CgWindowView = (u32, Seq<char>, i32);

/// A window kept from the window server's list.
#[derive(Debug, Clone)]
pub struct CgWindow {
    pub window_id: u32,
    pub title: String,
    pub owning_pid: i32,
}

impl View for CgWindow {
    type V = CgWindowView;

    open spec fn view(&self) -> CgWindowView {
        (self.window_id, self.title@, self.owning_pid)
    }
}

/// A number of an entry, or a default where it is missing.
pub open spec fn number_or(n: Option<i64>, default: i64) -> i64 {
    match n {
        Some(v) => v,
        None => default,
    }
}

/// Whether an entry is kept, and as what. The window number is read as a
/// 32-bit id and must not be zero; the title must not be empty; the owner
/// pid is read as a signed 32-bit number and must not be zero. When
/// `strict`, the window must also be on the normal layer (0) and its
/// sharing state must not be "none" (0; a missing state counts as 1).
pub open spec fn cg_keep(e: CgWindowEntry, strict: bool) -> Option<CgWindowView> {
    let id = number_or(e.window_number, 0) as u32;
    let title = match e.name {
        Some(t) => t@,
        None => Seq::<char>::empty(),
    };
    let pid = number_or(e.owner_pid, 0) as i32;
    if id == 0 {
        None
    } else if strict && (number_or(e.layer, 0) as i32) != 0 {
        None
    } else if title.len() == 0 {
        None
    } else if pid == 0 {
        None
    } else if strict && (number_or(e.sharing_state, 1) as i32) == 0 {
        None
    } else {
        Some((id, title, pid))
    }
}

/// The windows kept from a list of entries, in order.
pub open spec fn kept_cg_windows(es: Seq<CgWindowEntry>, strict: bool) -> Seq<CgWindowView>
    decreases es.len(),
{
    if es.len() == 0 {
        Seq::<CgWindowView>::empty()
    } else {
        push_some(kept_cg_windows(es.drop_last(), strict), cg_keep(es.last(), strict))
    }
}

/// The windows kept from the window server's list, in order.
pub fn filter_cg_windows(entries: &Vec<CgWindowEntry>, strict: bool) -> (r: Vec<CgWindow>)
    ensures
        r@.map_values(|w: CgWindow| w@) == kept_cg_windows(entries@, strict),
{
    let mut out: Vec<CgWindow> = Vec::new();
    let mut i: usize = 0;
    while i < entries.len()
        invariant
            0 <= i <= entries@.len(),
            out@.map_values(|w: CgWindow| w@) == kept_cg_windows(entries@.take(i as int), strict),
        decreases entries.len() - i,
    {
        let e = &entries[i];
        assert(entries@.take(i + 1).drop_last() =~= entries@.take(i as int));
        let id: u32 = match e.window_number {
            Some(v) => v as u32,
            None => 0,
        };
        let layer: i32 = match e.layer {
            Some(v) => v as i32,
            None => 0,
        };
        let pid: i32 = match e.owner_pid {
            Some(v) => v as i32,
            None => 0,
        };
        let sharing: i32 = match e.sharing_state {
            Some(v) => v as i32,
            None => 1,
        };
        let title: String = match &e.name {
            Some(t) => t.clone(),
            None => String::new(),
        };
        let ghost before = out@.map_values(|w: CgWindow| w@);
        if id != 0 && !(strict && layer != 0) && !title.as_str().is_empty() && pid != 0 && !(strict && sharing == 0) {
            out.push(CgWindow { window_id: id, title, owning_pid: pid });
            assert(out@.map_values(|w: CgWindow| w@) =~= before.push(out@.last()@));
        }
        i = i + 1;
    }
    assert(entries@.take(entries@.len() as int) =~= entries@);
    out
}

/// A running application as the workspace reports it.
#[derive(Debug, Clone)]
pub struct RunningApp {
    /// Bundle identifier, where it has one.
    pub bundle_id: Option<String>,
    /// Localized name, where it has one.
    pub localized_name: Option<String>,
    pub pid: i32,
}

/// Whether an application is listed at all: it has a bundle id that is not
/// ignored.
pub open spec fn app_eligible(a: RunningApp, ignored: Seq<Seq<char>>) -> bool {
    match a.bundle_id {
        Some(b) => !ignored.contains(b@),
        None => false,
    }
}

/// Whether an earlier listed application has the same pid (and so took its
/// windows).
pub open spec fn pid_claimed(apps: Seq<RunningApp>, i: int, ignored: Seq<Seq<char>>) -> bool {
    exists|j: int| 0 <= j < i && app_eligible(apps[j], ignored) && #[trigger] apps[j].pid == apps[i].pid
}

/// The windows of a pid, in order.
pub open spec fn windows_of_pid(ws: Seq<CgWindowView>, pid: i32) -> Seq<WindowView>
    decreases ws.len(),
{
    if ws.len() == 0 {
        Seq::<WindowView>::empty()
    } else {
        let rest = windows_of_pid(ws.drop_last(), pid);
        if ws.last().2 == pid {
            rest.push((ws.last().0, ws.last().1))
        } else {
            rest
        }
    }
}

/// The entry of the `i`th running application, if it is listed: it has a
/// bundle id that is not ignored, no earlier listed application has its pid,
/// and it has windows. Its name is the localized name, or the bundle id.
pub open spec fn app_entry(
    ws: Seq<CgWindowView>,
    apps: Seq<RunningApp>,
    i: int,
    ignored: Seq<Seq<char>>,
) -> Option<AppView> {
    let a = apps[i];
    let windows = windows_of_pid(ws, a.pid);
    if app_eligible(a, ignored) && !pid_claimed(apps, i, ignored) && windows.len() > 0 {
        let b = a.bundle_id.unwrap()@;
        let name = match a.localized_name {
            Some(n) => n@,
            None => b,
        };
        Some((b, name, windows))
    } else {
        None
    }
}

/// The applications listed from the first `n` running applications, in
/// their order.
pub open spec fn grouped_apps(
    ws: Seq<CgWindowView>,
    apps: Seq<RunningApp>,
    n: int,
    ignored: Seq<Seq<char>>,
) -> Seq<AppView>
    decreases n,
{
    if n <= 0 {
        Seq::<AppView>::empty()
    } else {
        push_some(grouped_apps(ws, apps, n - 1, ignored), app_entry(ws, apps, n - 1, ignored))
    }
}

/// Whether a text is one of a list of texts.
fn contains_text(list: &Vec<String>, t: &String) -> (r: bool)
    ensures
        r == list@.map_values(|s: String| s@).contains(t@),
{
    let ghost views = list@.map_values(|s: String| s@);
    let mut i: usize = 0;
    while i < list.len()
        invariant
            0 <= i <= list@.len(),
            views == list@.map_values(|s: String| s@),
            forall|k: int| 0 <= k < i ==> views[k] != t@,
        decreases list.len() - i,
    {
        if list[i] == *t {
            assert(views[i as int] == t@);
            return true;
        }
        i = i + 1;
    }
    false
}

/// Whether an earlier listed application among the first `n` has pid `p`
/// (and so took its windows).
pub open spec fn pid_taken(apps: Seq<RunningApp>, n: int, ignored: Seq<Seq<char>>, p: i32) -> bool {
    exists|j: int| 0 <= j < n && app_eligible(apps[j], ignored) && #[trigger] apps[j].pid == p
}

/// The kept windows grouped by owning pid: a pid is a key exactly when it
/// owns a window, and its windows keep their order.
fn windows_by_pid(ws: &Vec<CgWindow>) -> (r: HashMap<i32, Vec<AvailableWindow>>)
    ensures
        forall|p: i32|
            #[trigger] r@.contains_key(p) <==> windows_of_pid(ws@.map_values(|w: CgWindow| w@), p).len() > 0,
        forall|p: i32|
            r@.contains_key(p) ==> windows_view(#[trigger] r@[p]@) == windows_of_pid(
                ws@.map_values(|w: CgWindow| w@),
                p,
            ),
{
    broadcast use vstd::std_specs::hash::group_hash_axioms;

    let ghost wv = ws@.map_values(|w: CgWindow| w@);
    let mut by_pid: HashMap<i32, Vec<AvailableWindow>> = HashMap::new();
    let mut i: usize = 0;
    while i < ws.len()
        invariant
            0 <= i <= ws@.len(),
            wv == ws@.map_values(|w: CgWindow| w@),
            forall|p: i32| #[trigger] by_pid@.contains_key(p) <==> windows_of_pid(wv.take(i as int), p).len() > 0,
            forall|p: i32|
                by_pid@.contains_key(p) ==> windows_view(#[trigger] by_pid@[p]@) == windows_of_pid(
                    wv.take(i as int),
                    p,
                ),
        decreases ws.len() - i,
    {
        assert(wv.take(i + 1).drop_last() =~= wv.take(i as int));
        assert(wv.take(i + 1).last() == ws@[i as int]@);
        let pid = ws[i].owning_pid;
        let window = AvailableWindow { id: ws[i].window_id, title: ws[i].title.clone() };
        let ghost before = by_pid@;
        let mut list: Vec<AvailableWindow> = match by_pid.remove(&pid) {
            Some(v) => v,
            None => Vec::new(),
        };
        assert(windows_view(list@) == windows_of_pid(wv.take(i as int), pid));
        let ghost listed = list@;
        list.push(window);
        assert(windows_view(list@) =~= windows_view(listed).push(window@));
        by_pid.insert(pid, list);
        assert forall|p: i32| #[trigger] by_pid@.contains_key(p) <==> windows_of_pid(wv.take(i + 1), p).len() > 0 by {
            if p != pid {
                assert(by_pid@.contains_key(p) == before.contains_key(p));
            }
        }
        assert forall|p: i32| by_pid@.contains_key(p) implies windows_view(#[trigger] by_pid@[p]@) == windows_of_pid(
            wv.take(i + 1),
            p,
        ) by {
            if p != pid {
                assert(by_pid@[p] == before[p]);
            }
        }
        i = i + 1;
    }
    assert(wv.take(wv.len() as int) =~= wv);
    by_pid
}

/// The running applications with their windows, in the order the
/// applications were reported: an application is listed when it has a
/// bundle id that `ignored` does not hold, no earlier listed application has
/// its pid, and the pid owns windows.
pub fn group_windows_by_app(ws: &Vec<CgWindow>, apps: &Vec<RunningApp>, ignored: &Vec<String>) -> (r: Vec<AvailableApp>)
    ensures
        apps_view(r@) == grouped_apps(
            ws@.map_values(|w: CgWindow| w@),
            apps@,
            apps@.len() as int,
            ignored@.map_values(|s: String| s@),
        ),
{
    broadcast use vstd::std_specs::hash::group_hash_axioms;

    let ghost wv = ws@.map_values(|w: CgWindow| w@);
    let ghost ig = ignored@.map_values(|s: String| s@);
    let mut by_pid = windows_by_pid(ws);
    let mut out: Vec<AvailableApp> = Vec::new();
    let mut i: usize = 0;
    while i < apps.len()
        invariant
            0 <= i <= apps@.len(),
            wv == ws@.map_values(|w: CgWindow| w@),
            ig == ignored@.map_values(|s: String| s@),
            apps_view(out@) == grouped_apps(wv, apps@, i as int, ig),
            forall|p: i32|
                #[trigger] by_pid@.contains_key(p) <==> (windows_of_pid(wv, p).len() > 0 && !pid_taken(
                    apps@,
                    i as int,
                    ig,
                    p,
                )),
            forall|p: i32| by_pid@.contains_key(p) ==> windows_view(#[trigger] by_pid@[p]@) == windows_of_pid(wv, p),
        decreases apps.len() - i,
    {
        let a = &apps[i];
        let ghost before = apps_view(out@);
        let ghost map_before = by_pid@;
        let ghost eligible = app_eligible(apps@[i as int], ig);
        assert(pid_claimed(apps@, i as int, ig) == pid_taken(apps@, i as int, ig, a.pid));
        match &a.bundle_id {
            None => {},
            Some(b) => {
                if !contains_text(ignored, b) {
                    let windows: Vec<AvailableWindow> = match by_pid.remove(&a.pid) {
                        Some(v) => v,
                        None => Vec::new(),
                    };
                    if windows.len() > 0 {
                        let name = match &a.localized_name {
                            Some(n) => n.clone(),
                            None => b.clone(),
                        };
                        out.push(AvailableApp { bundle_id: b.clone(), app_name: name, windows });
                        assert(apps_view(out@) =~= before.push(out@.last()@));
                    }
                }
            },
        }
        assert forall|p: i32| pid_taken(apps@, i + 1, ig, p) == (pid_taken(apps@, i as int, ig, p) || (eligible
            && apps@[i as int].pid == p)) by {
            if pid_taken(apps@, i + 1, ig, p) && !pid_taken(apps@, i as int, ig, p) {
                let j = choose|j: int| 0 <= j < i + 1 && app_eligible(apps@[j], ig) && #[trigger] apps@[j].pid == p;
                assert(j == i);
            }
        }
        assert forall|p: i32| #[trigger] by_pid@.contains_key(p) <==> (windows_of_pid(wv, p).len() > 0 && !pid_taken(
            apps@,
            i + 1,
            ig,
            p,
        )) by {
            if p != a.pid || !eligible {
                assert(by_pid@.contains_key(p) == map_before.contains_key(p));
            }
        }
        assert forall|p: i32| by_pid@.contains_key(p) implies windows_view(#[trigger] by_pid@[p]@) == windows_of_pid(
            wv,
            p,
        ) by {
            assert(by_pid@[p] == map_before[p]);
        }
        i = i + 1;
    }
    out
}

// ---------------------------------------------------------------------------
// Windows: the top-level windows and their processes

/// A top-level window as the system reports it.
#[derive(Debug, Clone)]
pub struct Win32WindowEntry {
    /// The window handle.
    pub hwnd: isize,
    pub visible: bool,
    /// Extended window style.
    pub ex_style: u32,
    /// DWM's cloaked attribute (non-zero: hidden from the user).
    pub cloaked: i32,
    /// Title length the system reports.
    pub text_length: i32,
    /// Title text, where any could be read.
    pub title: Option<String>,
    /// Owning process (0 when unknown).
    pub pid: u32,
}

/// The tool-window extended style.
pub const WS_EX_TOOLWINDOW: u32 = 0x80;

/// Whether a top-level window is listed, and as what: it is visible, not a
/// tool window, not cloaked, has a title that is not all white space, and
/// belongs to a known process. Its id is the handle read as 32 bits.
pub open spec fn win32_keep(e: Win32WindowEntry) -> Option<(u32, WindowView)> {
    match e.title {
        Some(t) => if e.visible && e.ex_style & WS_EX_TOOLWINDOW == 0 && e.cloaked == 0 && e.text_length
            != 0 && !all_white_space(t@) && e.pid != 0 {
            Some((e.pid, (e.hwnd as u32, t@)))
        } else {
            None
        },
        None => None,
    }
}

/// The windows kept from a list of top-level windows, each with its pid.
pub open spec fn kept_win32_windows(es: Seq<Win32WindowEntry>) -> Seq<(u32, WindowView)>
    decreases es.len(),
{
    if es.len() == 0 {
        Seq::<(u32, WindowView)>::empty()
    } else {
        push_some(kept_win32_windows(es.drop_last()), win32_keep(es.last()))
    }
}

/// The distinct pids of a list, in order of first appearance.
pub open spec fn first_seen_pids(s: Seq<(u32, WindowView)>) -> Seq<u32>
    decreases s.len(),
{
    if s.len() == 0 {
        Seq::<u32>::empty()
    } else {
        let rest = first_seen_pids(s.drop_last());
        if rest.contains(s.last().0) {
            rest
        } else {
            rest.push(s.last().0)
        }
    }
}

/// The windows of a pid, in order.
pub open spec fn windows_with_pid(s: Seq<(u32, WindowView)>, pid: u32) -> Seq<WindowView>
    decreases s.len(),
{
    if s.len() == 0 {
        Seq::<WindowView>::empty()
    } else {
        let rest = windows_with_pid(s.drop_last(), pid);
        if s.last().0 == pid {
            rest.push(s.last().1)
        } else {
            rest
        }
    }
}

/// The windows of one process.
#[derive(Debug, Clone)]
pub struct ProcessWindows {
    pub pid: u32,
    pub windows: Vec<AvailableWindow>,
}

/// Abstract value of a process's windows: (pid, windows).
pub type ProcessView = (u32, Seq<WindowView>);

/// The views of a list of processes' windows.
pub open spec fn processes_view(ps: Seq<ProcessWindows>) -> Seq<ProcessView> {
    ps.map_values(|p: ProcessWindows| (p.pid, windows_view(p.windows@)))
}

/// Whether a top-level window is listed.
fn win32_window(e: &Win32WindowEntry) -> (r: Option<(u32, AvailableWindow)>)
    ensures
        match r {
            Some(v) => win32_keep(*e) == Some((v.0, v.1@)),
            None => win32_keep(*e) is None,
        },
{
    match &e.title {
        None => None,
        Some(t) => {
            let chars = chars_of(t.as_str());
            let trimmed = trim_chars(&chars);
            proof {
                lemma_trim_empty(t@);
            }
            if e.visible && e.ex_style & WS_EX_TOOLWINDOW == 0 && e.cloaked == 0 && e.text_length != 0
                && trimmed.len() != 0 && e.pid != 0 {
                Some((e.pid, AvailableWindow { id: e.hwnd as u32, title: t.clone() }))
            } else {
                None
            }
        },
    }
}

/// The listed top-level windows grouped by process, processes in the order
/// they first own a listed window, each process's windows in order.
pub fn collect_process_windows(entries: &Vec<Win32WindowEntry>) -> (r: Vec<ProcessWindows>)
    ensures
        processes_view(r@) == first_seen_pids(kept_win32_windows(entries@)).map_values(
            |p: u32| (p, windows_with_pid(kept_win32_windows(entries@), p)),
        ),
{
    let ghost all = kept_win32_windows(entries@);
    let mut kept: Vec<(u32, AvailableWindow)> = Vec::new();
    let mut i: usize = 0;
    while i < entries.len()
        invariant
            0 <= i <= entries@.len(),
            kept@.map_values(|x: (u32, AvailableWindow)| (x.0, x.1@)) == kept_win32_windows(entries@.take(i as int)),
        decreases entries.len() - i,
    {
        assert(entries@.take(i + 1).drop_last() =~= entries@.take(i as int));
        let ghost before = kept@.map_values(|x: (u32, AvailableWindow)| (x.0, x.1@));
        match win32_window(&entries[i]) {
            Some(v) => {
                kept.push(v);
                assert(kept@.map_values(|x: (u32, AvailableWindow)| (x.0, x.1@)) =~= before.push(
                    (kept@.last().0, kept@.last().1@),
                ));
            },
            None => {},
        }
        i = i + 1;
    }
    assert(entries@.take(entries@.len() as int) =~= entries@);
    let ghost kv = kept@.map_values(|x: (u32, AvailableWindow)| (x.0, x.1@));
    assert(kv == all);
    // The distinct pids, in order of first appearance.
    let mut pids: Vec<u32> = Vec::new();
    let mut k: usize = 0;
    while k < kept.len()
        invariant
            0 <= k <= kept@.len(),
            kv == kept@.map_values(|x: (u32, AvailableWindow)| (x.0, x.1@)),
            pids@ == first_seen_pids(kv.take(k as int)),
        decreases kept.len() - k,
    {
        assert(kv.take(k + 1).drop_last() =~= kv.take(k as int));
        let p = kept[k].0;
        let mut seen = false;
        let mut j: usize = 0;
        while j < pids.len()
            invariant
                0 <= j <= pids@.len(),
                seen == exists|m: int| 0 <= m < j && pids@[m] == p,
            decreases pids.len() - j,
        {
            if pids[j] == p {
                seen = true;
            }
            j = j + 1;
        }
        assert(seen == pids@.contains(p));
        if !seen {
            pids.push(p);
        }
        k = k + 1;
    }
    assert(kv.take(kv.len() as int) =~= kv);
    // The windows of each pid.
    let mut out: Vec<ProcessWindows> = Vec::new();
    let mut q: usize = 0;
    while q < pids.len()
        invariant
            0 <= q <= pids@.len(),
            kv == kept@.map_values(|x: (u32, AvailableWindow)| (x.0, x.1@)),
            pids@ == first_seen_pids(kv),
            processes_view(out@) == pids@.take(q as int).map_values(|p: u32| (p, windows_with_pid(kv, p))),
        decreases pids.len() - q,
    {
        let p = pids[q];
        let mut ws: Vec<AvailableWindow> = Vec::new();
        let mut m: usize = 0;
        while m < kept.len()
            invariant
                0 <= m <= kept@.len(),
                kv == kept@.map_values(|x: (u32, AvailableWindow)| (x.0, x.1@)),
                windows_view(ws@) == windows_with_pid(kv.take(m as int), p),
            decreases kept.len() - m,
        {
            assert(kv.take(m + 1).drop_last() =~= kv.take(m as int));
            let ghost before = windows_view(ws@);
            if kept[m].0 == p {
                let w = AvailableWindow { id: kept[m].1.id, title: kept[m].1.title.clone() };
                ws.push(w);
                assert(windows_view(ws@) =~= before.push(ws@.last()@));
            }
            m = m + 1;
        }
        assert(kv.take(kv.len() as int) =~= kv);
        let ghost before = processes_view(out@);
        out.push(ProcessWindows { pid: p, windows: ws });
        assert(processes_view(out@) =~= before.push((p, windows_with_pid(kv, p))));
        assert(pids@.take(q + 1) =~= pids@.take(q as int).push(p));
        q = q + 1;
    }
    assert(pids@.take(pids@.len() as int) =~= pids@);
    out
}

/// The bundle id and display name of a process: its executable's name for
/// both, or "pid:<pid>" and "Process <pid>" where it has none.
pub open spec fn process_names(pid: u32, identity: Option<Seq<char>>) -> (Seq<char>, Seq<char>) {
    match identity {
        Some(n) => (n, n),
        None => (seq!['p', 'i', 'd', ':'] + crate::text::dec_digits(pid as nat), seq![
            'P',
            'r',
            'o',
            'c',
            'e',
            's',
            's',
            ' ',
        ] + crate::text::dec_digits(pid as nat)),
    }
}

/// The names of a process without a known executable.
fn process_fallback_names(pid: u32) -> (r: (String, String))
    ensures
        r.0@ == process_names(pid, None).0,
        r.1@ == process_names(pid, None).1,
{
    let mut id = "pid:".to_owned();
    let mut name = "Process ".to_owned();
    proof {
        reveal_strlit("pid:");
        reveal_strlit("Process ");
        assert(id@ =~= seq!['p', 'i', 'd', ':']);
        assert(name@ =~= seq!['P', 'r', 'o', 'c', 'e', 's', 's', ' ']);
    }
    push_decimal(&mut id, pid as u64);
    push_decimal(&mut name, pid as u64);
    (id, name)
}


// ---------------------------------------------------------------------------
// What every listing keeps

/// Every application listed from the running applications has at least one
/// window, and none of them is an ignored one.
pub proof fn lemma_grouped_apps_listed(ws: Seq<CgWindowView>, apps: Seq<RunningApp>, n: int, ignored: Seq<Seq<char>>)
    requires
        0 <= n <= apps.len(),
    ensures
        forall|i: int|
            0 <= i < grouped_apps(ws, apps, n, ignored).len() ==> {
                &&& (#[trigger] grouped_apps(ws, apps, n, ignored)[i]).2.len() > 0
                &&& !ignored.contains(grouped_apps(ws, apps, n, ignored)[i].0)
            },
    decreases n,
{
    if n > 0 {
        lemma_grouped_apps_listed(ws, apps, n - 1, ignored);
        let rest = grouped_apps(ws, apps, n - 1, ignored);
        let out = grouped_apps(ws, apps, n, ignored);
        assert(out == push_some(rest, app_entry(ws, apps, n - 1, ignored)));
        assert forall|i: int| 0 <= i < out.len() implies {
            &&& (#[trigger] out[i]).2.len() > 0
            &&& !ignored.contains(out[i].0)
        } by {
            if i < rest.len() {
                assert(out[i] == rest[i]);
            }
        }
    }
}

/// No pid is listed twice among the processes of a listing.
pub proof fn lemma_first_seen_pids_distinct(s: Seq<(u32, WindowView)>)
    ensures
        first_seen_pids(s).no_duplicates(),
    decreases s.len(),
{
    if s.len() > 0 {
        lemma_first_seen_pids_distinct(s.drop_last());
        let rest = first_seen_pids(s.drop_last());
        if !rest.contains(s.last().0) {
            let out = rest.push(s.last().0);
            assert forall|i: int, j: int| 0 <= i < out.len() && 0 <= j < out.len() && i != j implies out[i]
                != out[j] by {
                if i < rest.len() && j < rest.len() {
                } else if i == rest.len() {
                    assert(out[j] == rest[j]);
                } else {
                    assert(out[i] == rest[i]);
                }
            }
        }
    }
}

/// Every listed application has at least one window, and every window a
/// title.
pub open spec fn listing_well_formed(apps: Seq<AppView>) -> bool {
    forall|i: int|
        0 <= i < apps.len() ==> {
            &&& (#[trigger] apps[i]).2.len() > 0
            &&& forall|j: int| 0 <= j < apps[i].2.len() ==> (#[trigger] apps[i].2[j]).1.len() > 0
        }
}

/// Every window kept from the window server's list has a title.
pub proof fn lemma_kept_cg_windows_titled(es: Seq<CgWindowEntry>, strict: bool)
    ensures
        forall|i: int|
            0 <= i < kept_cg_windows(es, strict).len() ==> (#[trigger] kept_cg_windows(es, strict)[i]).1.len()
                > 0,
    decreases es.len(),
{
    if es.len() > 0 {
        lemma_kept_cg_windows_titled(es.drop_last(), strict);
        let rest = kept_cg_windows(es.drop_last(), strict);
        let out = kept_cg_windows(es, strict);
        assert forall|i: int| 0 <= i < out.len() implies (#[trigger] out[i]).1.len() > 0 by {
            if i < rest.len() {
                assert(out[i] == rest[i]);
            }
        }
    }
}

/// The windows of a pid keep their titles.
proof fn lemma_windows_of_pid_titled(ws: Seq<CgWindowView>, pid: i32)
    requires
        forall|i: int| 0 <= i < ws.len() ==> (#[trigger] ws[i]).1.len() > 0,
    ensures
        forall|i: int| 0 <= i < windows_of_pid(ws, pid).len() ==> (#[trigger] windows_of_pid(ws, pid)[i]).1.len() > 0,
    decreases ws.len(),
{
    if ws.len() > 0 {
        let front = ws.drop_last();
        assert forall|i: int| 0 <= i < front.len() implies (#[trigger] front[i]).1.len() > 0 by {
            assert(front[i] == ws[i]);
        }
        lemma_windows_of_pid_titled(front, pid);
        let rest = windows_of_pid(front, pid);
        let out = windows_of_pid(ws, pid);
        assert forall|i: int| 0 <= i < out.len() implies (#[trigger] out[i]).1.len() > 0 by {
            if i < rest.len() {
                assert(out[i] == rest[i]);
            } else {
                assert(ws[ws.len() - 1].1.len() > 0);
            }
        }
    }
}

/// Listing the running applications over titled windows gives a well-formed
/// listing.
pub proof fn lemma_grouped_apps_well_formed(
    ws: Seq<CgWindowView>,
    apps: Seq<RunningApp>,
    n: int,
    ignored: Seq<Seq<char>>,
)
    requires
        0 <= n <= apps.len(),
        forall|i: int| 0 <= i < ws.len() ==> (#[trigger] ws[i]).1.len() > 0,
    ensures
        listing_well_formed(grouped_apps(ws, apps, n, ignored)),
    decreases n,
{
    if n > 0 {
        lemma_grouped_apps_well_formed(ws, apps, n - 1, ignored);
        lemma_windows_of_pid_titled(ws, apps[n - 1].pid);
        let rest = grouped_apps(ws, apps, n - 1, ignored);
        let out = grouped_apps(ws, apps, n, ignored);
        assert(out == push_some(rest, app_entry(ws, apps, n - 1, ignored)));
        assert forall|i: int| 0 <= i < out.len() implies {
            &&& (#[trigger] out[i]).2.len() > 0
            &&& forall|j: int| 0 <= j < out[i].2.len() ==> (#[trigger] out[i].2[j]).1.len() > 0
        } by {
            if i < rest.len() {
                assert(out[i] == rest[i]);
            }
        }
    }
}

/// Every window kept from the top-level windows has a title that is not all
/// white space.
pub proof fn lemma_kept_win32_windows_titled(es: Seq<Win32WindowEntry>)
    ensures
        forall|i: int|
            0 <= i < kept_win32_windows(es).len() ==> !all_white_space(
                (#[trigger] kept_win32_windows(es)[i]).1.1,
            ),
    decreases es.len(),
{
    if es.len() > 0 {
        lemma_kept_win32_windows_titled(es.drop_last());
        let rest = kept_win32_windows(es.drop_last());
        let out = kept_win32_windows(es);
        assert forall|i: int| 0 <= i < out.len() implies !all_white_space((#[trigger] out[i]).1.1) by {
            if i < rest.len() {
                assert(out[i] == rest[i]);
            }
        }
    }
}

/// The windows of a pid keep titles that are not all white space.
proof fn lemma_windows_with_pid_titled(s: Seq<(u32, WindowView)>, pid: u32)
    requires
        forall|i: int| 0 <= i < s.len() ==> !all_white_space((#[trigger] s[i]).1.1),
    ensures
        forall|i: int| 0 <= i < windows_with_pid(s, pid).len() ==> !all_white_space(
            (#[trigger] windows_with_pid(s, pid)[i]).1,
        ),
    decreases s.len(),
{
    if s.len() > 0 {
        let front = s.drop_last();
        assert forall|i: int| 0 <= i < front.len() implies !all_white_space((#[trigger] front[i]).1.1) by {
            assert(front[i] == s[i]);
        }
        lemma_windows_with_pid_titled(front, pid);
        let rest = windows_with_pid(front, pid);
        let out = windows_with_pid(s, pid);
        assert forall|i: int| 0 <= i < out.len() implies !all_white_space((#[trigger] out[i]).1) by {
            if i < rest.len() {
                assert(out[i] == rest[i]);
            } else {
                assert(!all_white_space(s[s.len() - 1].1.1));
            }
        }
    }
}

/// A pid that owns a listed window has at least one window.
proof fn lemma_first_seen_pid_has_windows(s: Seq<(u32, WindowView)>, pid: u32)
    requires
        first_seen_pids(s).contains(pid),
    ensures
        windows_with_pid(s, pid).len() > 0,
    decreases s.len(),
{
    if s.len() > 0 && s.last().0 != pid {
        let rest = first_seen_pids(s.drop_last());
        let out = first_seen_pids(s);
        let k = choose|k: int| 0 <= k < out.len() && out[k] == pid;
        if !rest.contains(s.last().0) {
            assert(k < rest.len());
            assert(rest[k] == pid);
        }
        assert(rest.contains(pid));
        lemma_first_seen_pid_has_windows(s.drop_last(), pid);
    }
}

/// Every process of a Windows listing has at least one window, and every
/// window a title that is not all white space (and so is not empty).
pub proof fn lemma_collected_processes_titled(entries: Seq<Win32WindowEntry>)
    ensures
        forall|i: int|
            0 <= i < first_seen_pids(kept_win32_windows(entries)).len() ==> {
                let p = #[trigger] first_seen_pids(kept_win32_windows(entries))[i];
                let ws = windows_with_pid(kept_win32_windows(entries), p);
                &&& ws.len() > 0
                &&& forall|j: int| 0 <= j < ws.len() ==> !all_white_space(#[trigger] ws[j].1) && ws[j].1.len() > 0
            },
{
    let kept = kept_win32_windows(entries);
    let pids = first_seen_pids(kept);
    lemma_kept_win32_windows_titled(entries);
    assert forall|i: int| 0 <= i < pids.len() implies {
        let ws = windows_with_pid(kept, #[trigger] pids[i]);
        &&& ws.len() > 0
        &&& forall|j: int| 0 <= j < ws.len() ==> !all_white_space(#[trigger] ws[j].1) && ws[j].1.len() > 0
    } by {
        let p = pids[i];
        assert(pids.contains(p));
        lemma_first_seen_pid_has_windows(kept, p);
        lemma_windows_with_pid_titled(kept, p);
    }
}

} // verus!
