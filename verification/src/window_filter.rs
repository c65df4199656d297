//! Which windows a capture session shows and which it hides.
//!
//! The preview window is excluded automatically so that the capture never
//! shows itself (no "infinity mirror"); users may exclude more windows by
//! application id, by window name, or by both.
use vstd::prelude::*;
use crate::seq_lemmas::{
    lemma_filter_all_true, lemma_filter_excludes, lemma_filter_push, lemma_filter_take_step,
    lemma_take_full,
};

verus! {

/// Abstract value of a window identifier: (application id, window name).
pub type IdView = (Seq<char>, Seq<char>);

/// Application id of the preview-window marker.
pub open spec fn preview_app_id() -> Seq<char> {
    "com.rustframe.preview"@
}

/// Window name of the preview-window marker.
pub open spec fn preview_window_name() -> Seq<char> {
    "RustFrame Preview"@
}

/// Identifies a window across application restarts (application id plus
/// window title). An empty component matches nothing special: filtering
/// compares whole identifiers.
#[derive(Debug, Clone, Hash)]
pub struct WindowIdentifier {
    /// Application bundle identifier (macOS) or executable name (Windows).
    pub app_id: String,
    /// Window title, to tell apart several windows of one application.
    pub window_name: String,
}

impl View for WindowIdentifier {
    type V = IdView;

    open spec fn view(&self) -> IdView {
        (self.app_id@, self.window_name@)
    }
}

impl PartialEq for WindowIdentifier {
    fn eq(&self, other: &Self) -> (r: bool) {
        self.app_id == other.app_id && self.window_name == other.window_name
    }
}

impl vstd::std_specs::cmp::PartialEqSpecImpl for WindowIdentifier {
    open spec fn obeys_eq_spec() -> bool {
        true
    }

    open spec fn eq_spec(&self, other: &Self) -> bool {
        self@ == other@
    }
}

impl Eq for WindowIdentifier {}

/// The views of a list of identifiers.
pub open spec fn ids_view(ids: Seq<WindowIdentifier>) -> Seq<IdView> {
    ids.map_values(|w: WindowIdentifier| w@)
}

impl WindowIdentifier {
    pub fn new(app_id: String, window_name: String) -> (r: Self)
        ensures
            r.app_id@ == app_id@,
            r.window_name@ == window_name@,
    {
        WindowIdentifier { app_id, window_name }
    }

    /// A copy with the same view (the derived `clone` carries no contract).
    pub fn duplicate(&self) -> (r: Self)
        ensures
            r@ == self@,
    {
        WindowIdentifier { app_id: self.app_id.clone(), window_name: self.window_name.clone() }
    }

    /// The special marker that stands for the preview window.
    pub fn preview_window() -> (r: Self)
        ensures
            r@ == (preview_app_id(), preview_window_name()),
    {
        WindowIdentifier {
            app_id: "com.rustframe.preview".to_owned(),
            window_name: "RustFrame Preview".to_owned(),
        }
    }

    /// Whether this identifier carries the preview marker's application id.
    pub fn is_preview_window(&self) -> (r: bool)
        ensures
            r == (self.app_id@ == preview_app_id()),
    {
        let marker: String = "com.rustframe.preview".to_owned();
        self.app_id == marker
    }

    /// A specific window of an application, by bundle id and window name.
    pub fn app_window(bundle_id: &str, window_name: &str) -> (r: Self)
        ensures
            r@ == (bundle_id@, window_name@),
    {
        WindowIdentifier { app_id: bundle_id.to_owned(), window_name: window_name.to_owned() }
    }

    /// An identifier made of a bundle id and an empty window name.
    pub fn app_all_windows(bundle_id: &str) -> (r: Self)
        ensures
            r@ == (bundle_id@, Seq::<char>::empty()),
    {
        WindowIdentifier { app_id: bundle_id.to_owned(), window_name: String::new() }
    }

    /// An identifier made of an empty application id and a window name.
    pub fn window_by_name(window_name: &str) -> (r: Self)
        ensures
            r@ == (Seq::<char>::empty(), window_name@),
    {
        WindowIdentifier { app_id: String::new(), window_name: window_name.to_owned() }
    }
}

/// How the capture filters windows.
#[derive(Debug, Clone, Copy, PartialEq, Eq, Structural)]
pub enum WindowFilterMode {
    /// No filtering: everything is captured.
    CaptureAll,
    /// The listed windows are left out of the capture.
    ExcludeList,
    /// Only the listed windows are captured.
    IncludeOnly,
}

/// Window filtering settings.
#[derive(Debug, Clone)]
pub struct WindowFilterSettings {
    /// Active filtering mode.
    pub mode: WindowFilterMode,
    /// Windows left out of the capture (in `ExcludeList` mode).
    pub excluded_windows: Vec<WindowIdentifier>,
    /// Windows that alone are captured (in `IncludeOnly` mode).
    pub included_windows: Vec<WindowIdentifier>,
    /// Exclude the preview window automatically.
    pub auto_exclude_preview: bool,
    /// Developer mode: the automatic preview exclusion is switched off.
    pub dev_mode: bool,
}

/// The exclusions of a session: the manual list, followed by the preview
/// window when it is excluded automatically and not listed already.
pub open spec fn exclusions_spec(
    excluded: Seq<IdView>,
    auto_exclude_preview: bool,
    dev_mode: bool,
    preview: Option<IdView>,
) -> Seq<IdView> {
    if auto_exclude_preview && !dev_mode && preview is Some && !excluded.contains(preview->0) {
        excluded.push(preview->0)
    } else {
        excluded
    }
}

/// Whether a window is captured under the given settings.
pub open spec fn should_capture_spec(
    s: WindowFilterSettings,
    window: IdView,
    preview: Option<IdView>,
) -> bool {
    match s.mode {
        WindowFilterMode::CaptureAll => true,
        WindowFilterMode::ExcludeList => !exclusions_spec(
            ids_view(s.excluded_windows@),
            s.auto_exclude_preview,
            s.dev_mode,
            preview,
        ).contains(window),
        WindowFilterMode::IncludeOnly => s.included_windows@.len() > 0 && ids_view(
            s.included_windows@,
        ).contains(window),
    }
}

/// The list with the given entry added unless it is there already.
pub open spec fn add_unique(list: Seq<IdView>, w: IdView) -> Seq<IdView> {
    if list.contains(w) {
        list
    } else {
        list.push(w)
    }
}

/// Whether an identifier view is not the preview marker.
pub open spec fn is_manual(w: IdView) -> bool {
    w.0 != preview_app_id()
}

/// Whether a list holds no entry twice.
pub open spec fn no_duplicates(list: Seq<IdView>) -> bool {
    forall|i: int, j: int| 0 <= i < j < list.len() ==> list[i] != list[j]
}

/// Optional identifier, taken by its view.
pub open spec fn opt_view(o: Option<&WindowIdentifier>) -> Option<IdView> {
    match o {
        Some(w) => Some(w@),
        None => None,
    }
}

/// Whether `w` occurs in `list`, comparing identifiers by value.
pub fn contains_id(list: &Vec<WindowIdentifier>, w: &WindowIdentifier) -> (r: bool)
    ensures
        r == ids_view(list@).contains(w@),
{
    let mut i: usize = 0;
    while i < list.len()
        invariant
            0 <= i <= list.len(),
            forall|k: int| 0 <= k < i ==> list@[k]@ != w@,
        decreases list.len() - i,
    {
        if list[i].app_id == w.app_id && list[i].window_name == w.window_name {
            proof {
                assert(ids_view(list@)[i as int] == w@);
            }
            return true;
        }
        i = i + 1;
    }
    proof {
        if ids_view(list@).contains(w@) {
            let k = choose|k: int| 0 <= k < ids_view(list@).len() && ids_view(list@)[k] == w@;
            assert(list@[k]@ == w@);
        }
    }
    false
}

/// A value-for-value copy of a list of identifiers.
pub fn copy_ids(list: &Vec<WindowIdentifier>) -> (r: Vec<WindowIdentifier>)
    ensures
        ids_view(r@) == ids_view(list@),
{
    let mut out: Vec<WindowIdentifier> = Vec::new();
    let mut i: usize = 0;
    while i < list.len()
        invariant
            0 <= i <= list.len(),
            ids_view(out@) == ids_view(list@).take(i as int),
        decreases list.len() - i,
    {
        let w = list[i].duplicate();
        out.push(w);
        proof {
            assert(ids_view(list@).take(i + 1) == ids_view(list@).take(i as int).push(list@[i as int]@));
        }
        i = i + 1;
    }
    proof {
        assert(ids_view(list@).take(list@.len() as int) == ids_view(list@));
    }
    out
}

impl Default for WindowFilterSettings {
    /// Exclude-list mode, empty lists, automatic preview exclusion on,
    /// developer mode off (the application reads `RUSTFRAME_DEV_MODE` and
    /// uses `with_dev_mode`).
    fn default() -> (r: Self)
        ensures
            r.mode == WindowFilterMode::ExcludeList,
            r.excluded_windows@.len() == 0,
            r.included_windows@.len() == 0,
            r.auto_exclude_preview,
            !r.dev_mode,
    {
        WindowFilterSettings::with_dev_mode(false)
    }
}

impl WindowFilterSettings {
    /// The default settings, with developer mode as given.
    pub fn with_dev_mode(dev_mode: bool) -> (r: Self)
        ensures
            r.mode == WindowFilterMode::ExcludeList,
            r.excluded_windows@.len() == 0,
            r.included_windows@.len() == 0,
            r.auto_exclude_preview,
            r.dev_mode == dev_mode,
    {
        WindowFilterSettings {
            mode: WindowFilterMode::ExcludeList,
            excluded_windows: Vec::new(),
            included_windows: Vec::new(),
            auto_exclude_preview: true,
            dev_mode,
        }
    }

    /// The windows to leave out of this capture session: the manual list, and
    /// the preview window when automatic exclusion is on and developer mode off.
    pub fn get_exclusions(&self, preview_window_id: Option<&WindowIdentifier>) -> (r: Vec<
        WindowIdentifier,
    >)
        ensures
            ids_view(r@) == exclusions_spec(
                ids_view(self.excluded_windows@),
                self.auto_exclude_preview,
                self.dev_mode,
                opt_view(preview_window_id),
            ),
    {
        let mut exclusions = copy_ids(&self.excluded_windows);
        if self.auto_exclude_preview && !self.dev_mode {
            if let Some(preview_id) = preview_window_id {
                if !contains_id(&exclusions, preview_id) {
                    let p = preview_id.duplicate();
                    exclusions.push(p);
                    proof {
                        assert(ids_view(exclusions@) == ids_view(self.excluded_windows@).push(
                            preview_id@,
                        ));
                    }
                }
            }
        }
        exclusions
    }

    /// Whether a window is captured.
    pub fn should_capture(
        &self,
        window_id: &WindowIdentifier,
        preview_window_id: Option<&WindowIdentifier>,
    ) -> (r: bool)
        ensures
            r == should_capture_spec(*self, window_id@, opt_view(preview_window_id)),
    {
        match self.mode {
            WindowFilterMode::CaptureAll => true,
            WindowFilterMode::ExcludeList => {
                let exclusions = self.get_exclusions(preview_window_id);
                !contains_id(&exclusions, window_id)
            },
            WindowFilterMode::IncludeOnly => {
                self.included_windows.len() > 0 && contains_id(&self.included_windows, window_id)
            },
        }
    }

    /// Add a window to the exclusion list unless it is listed already.
    pub fn add_exclusion(&mut self, window: WindowIdentifier)
        ensures
            ids_view(final(self).excluded_windows@) == add_unique(
                ids_view(old(self).excluded_windows@),
                window@,
            ),
            ids_view(final(self).included_windows@) == ids_view(old(self).included_windows@),
            final(self).mode == old(self).mode,
            final(self).auto_exclude_preview == old(self).auto_exclude_preview,
            final(self).dev_mode == old(self).dev_mode,
    {
        if !contains_id(&self.excluded_windows, &window) {
            let ghost w = window@;
            self.excluded_windows.push(window);
            proof {
                assert(ids_view(self.excluded_windows@) == ids_view(old(self).excluded_windows@).push(w));
            }
        }
    }

    /// A copy of these settings without the given window in the exclusion
    /// list; every other entry keeps its place.
    pub fn remove_exclusion(&self, window: &WindowIdentifier) -> (r: Self)
        ensures
            ids_view(r.excluded_windows@) == ids_view(self.excluded_windows@).filter(
                |x: IdView| x != window@,
            ),
            ids_view(r.included_windows@) == ids_view(self.included_windows@),
            r.mode == self.mode,
            r.auto_exclude_preview == self.auto_exclude_preview,
            r.dev_mode == self.dev_mode,
    {
        let ghost pred = |x: IdView| x != window@;
        let mut kept: Vec<WindowIdentifier> = Vec::new();
        let mut i: usize = 0;
        while i < self.excluded_windows.len()
            invariant
                0 <= i <= self.excluded_windows.len(),
                ids_view(kept@) == ids_view(self.excluded_windows@).take(i as int).filter(pred),
                pred == (|x: IdView| x != window@),
            decreases self.excluded_windows.len() - i,
        {
            let w = &self.excluded_windows[i];
            let same = w.app_id == window.app_id && w.window_name == window.window_name;
            proof {
                lemma_filter_take_step(ids_view(self.excluded_windows@), i as int, pred);
                assert(ids_view(self.excluded_windows@)[i as int] == self.excluded_windows@[i as int]@);
            }
            if !same {
                let c = w.duplicate();
                let ghost before = kept@;
                kept.push(c);
                proof {
                    assert(ids_view(kept@) == ids_view(before).push(c@));
                }
            }
            i = i + 1;
        }
        proof {
            lemma_take_full(ids_view(self.excluded_windows@));
        }
        WindowFilterSettings {
            mode: self.mode,
            excluded_windows: kept,
            included_windows: copy_ids(&self.included_windows),
            auto_exclude_preview: self.auto_exclude_preview,
            dev_mode: self.dev_mode,
        }
    }

    /// Exclude every window of an application (bundle id, empty window name).
    pub fn exclude_app(&mut self, bundle_id: &str)
        ensures
            ids_view(final(self).excluded_windows@) == add_unique(
                ids_view(old(self).excluded_windows@),
                (bundle_id@, Seq::<char>::empty()),
            ),
            ids_view(final(self).included_windows@) == ids_view(old(self).included_windows@),
            final(self).mode == old(self).mode,
            final(self).auto_exclude_preview == old(self).auto_exclude_preview,
            final(self).dev_mode == old(self).dev_mode,
    {
        self.add_exclusion(WindowIdentifier::app_all_windows(bundle_id));
    }

    /// Exclude one window of an application.
    pub fn exclude_app_window(&mut self, bundle_id: &str, window_name: &str)
        ensures
            ids_view(final(self).excluded_windows@) == add_unique(
                ids_view(old(self).excluded_windows@),
                (bundle_id@, window_name@),
            ),
            ids_view(final(self).included_windows@) == ids_view(old(self).included_windows@),
            final(self).mode == old(self).mode,
            final(self).auto_exclude_preview == old(self).auto_exclude_preview,
            final(self).dev_mode == old(self).dev_mode,
    {
        self.add_exclusion(WindowIdentifier::app_window(bundle_id, window_name));
    }

    /// Remove every manual exclusion (the preview stays excluded automatically).
    pub fn clear_manual_exclusions(&mut self)
        ensures
            final(self).excluded_windows@.len() == 0,
            ids_view(final(self).included_windows@) == ids_view(old(self).included_windows@),
            final(self).mode == old(self).mode,
            final(self).auto_exclude_preview == old(self).auto_exclude_preview,
            final(self).dev_mode == old(self).dev_mode,
    {
        self.excluded_windows.clear();
    }

    /// The number of excluded entries that are not the preview marker.
    pub fn manual_exclusion_count(&self) -> (r: usize)
        ensures
            r == ids_view(self.excluded_windows@).filter(|w: IdView| is_manual(w)).len(),
    {
        let ghost pred = |w: IdView| is_manual(w);
        let mut count: usize = 0;
        let mut i: usize = 0;
        while i < self.excluded_windows.len()
            invariant
                0 <= i <= self.excluded_windows.len(),
                count == ids_view(self.excluded_windows@).take(i as int).filter(pred).len(),
                count <= i,
                pred == (|w: IdView| is_manual(w)),
            decreases self.excluded_windows.len() - i,
        {
            proof {
                lemma_filter_take_step(ids_view(self.excluded_windows@), i as int, pred);
                ids_view(self.excluded_windows@).take(i as int).lemma_filter_len(pred);
                assert(ids_view(self.excluded_windows@)[i as int] == self.excluded_windows@[i as int]@);
            }
            let b = self.excluded_windows[i].is_preview_window();
            proof {
                let s = ids_view(self.excluded_windows@);
                assert(pred(s[i as int]) == !b);
            }
            if !b {
                count = count + 1;
            }
            i = i + 1;
        }
        proof {
            lemma_take_full(ids_view(self.excluded_windows@));
        }
        count
    }
}

/// In exclude-list mode, with automatic preview exclusion on and developer
/// mode off, the preview window is never captured: the capture cannot show
/// itself.
pub proof fn lemma_preview_never_captured(s: WindowFilterSettings, preview: IdView)
    requires
        s.mode == WindowFilterMode::ExcludeList,
        s.auto_exclude_preview,
        !s.dev_mode,
    ensures
        !should_capture_spec(s, preview, Some(preview)),
{
    let l = ids_view(s.excluded_windows@);
    let e = exclusions_spec(l, true, false, Some(preview));
    if l.contains(preview) {
        assert(e.contains(preview));
    } else {
        assert(e[e.len() - 1] == preview);
        assert(e.contains(preview));
    }
}

/// With automatic exclusion off, or in developer mode, the exclusions of a
/// session are exactly the manual list, whatever the preview window is.
pub proof fn lemma_no_auto_exclusion_keeps_list(
    excluded: Seq<IdView>,
    auto_exclude_preview: bool,
    dev_mode: bool,
    preview: Option<IdView>,
)
    requires
        !auto_exclude_preview || dev_mode,
    ensures
        exclusions_spec(excluded, auto_exclude_preview, dev_mode, preview) == excluded,
{
}

/// The exclusions of a session always contain the whole manual list, in order,
/// and hold no entry twice when the manual list holds none twice.
pub proof fn lemma_exclusions_extend_list(
    excluded: Seq<IdView>,
    auto_exclude_preview: bool,
    dev_mode: bool,
    preview: Option<IdView>,
)
    ensures
        exclusions_spec(excluded, auto_exclude_preview, dev_mode, preview).take(
            excluded.len() as int,
        ) == excluded,
        no_duplicates(excluded) ==> no_duplicates(
            exclusions_spec(excluded, auto_exclude_preview, dev_mode, preview),
        ),
{
    let e = exclusions_spec(excluded, auto_exclude_preview, dev_mode, preview);
    assert(e.take(excluded.len() as int) =~= excluded);
    if no_duplicates(excluded) && e.len() > excluded.len() {
        assert forall|i: int, j: int| 0 <= i < j < e.len() implies e[i] != e[j] by {
            if j == excluded.len() {
                assert(excluded[i] == e[i]);
            }
        }
    }
}

/// A window that has just been added to the exclusion list is not captured in
/// exclude-list mode.
pub proof fn lemma_added_window_not_captured(
    s: WindowFilterSettings,
    before: Seq<IdView>,
    w: IdView,
    preview: Option<IdView>,
)
    requires
        s.mode == WindowFilterMode::ExcludeList,
        ids_view(s.excluded_windows@) == add_unique(before, w),
    ensures
        !should_capture_spec(s, w, preview),
{
    let l = ids_view(s.excluded_windows@);
    if before.contains(w) {
        assert(l.contains(w));
    } else {
        assert(l[l.len() - 1] == w);
    }
    let e = exclusions_spec(l, s.auto_exclude_preview, s.dev_mode, preview);
    let k = choose|k: int| 0 <= k < l.len() && l[k] == w;
    assert(e[k] == w);
}

/// Adding the same exclusion twice is the same as adding it once, and adding
/// keeps a list free of duplicates.
pub proof fn lemma_add_exclusion_idempotent(list: Seq<IdView>, w: IdView)
    ensures
        add_unique(add_unique(list, w), w) == add_unique(list, w),
        no_duplicates(list) ==> no_duplicates(add_unique(list, w)),
{
    if !list.contains(w) {
        assert(list.push(w)[list.len() as int] == w);
        assert(list.push(w).contains(w));
        if no_duplicates(list) {
            let l2 = list.push(w);
            assert forall|i: int, j: int| 0 <= i < j < l2.len() implies l2[i] != l2[j] by {
                if j == list.len() {
                    assert(list[i] == l2[i]);
                }
            }
        }
    }
}

/// Removing a window takes it off the exclusion list; in exclude-list mode it
/// is captured again unless it is the automatically excluded preview window.
pub proof fn lemma_removed_window_captured(
    s: WindowFilterSettings,
    before: Seq<IdView>,
    w: IdView,
    preview: Option<IdView>,
)
    requires
        s.mode == WindowFilterMode::ExcludeList,
        ids_view(s.excluded_windows@) == before.filter(|x: IdView| x != w),
        !(s.auto_exclude_preview && !s.dev_mode && preview == Some(w)),
    ensures
        !ids_view(s.excluded_windows@).contains(w),
        should_capture_spec(s, w, preview),
{
    let l = ids_view(s.excluded_windows@);
    lemma_filter_excludes(before, |x: IdView| x != w, w);
    let e = exclusions_spec(l, s.auto_exclude_preview, s.dev_mode, preview);
    if e.contains(w) {
        let k = choose|k: int| 0 <= k < e.len() && e[k] == w;
        if k < l.len() {
            assert(l[k] == w);
        }
    }
}

/// Removing a window that was added to a list not holding it gives the
/// list back: remove undoes add.
pub proof fn lemma_remove_undoes_add(list: Seq<IdView>, w: IdView)
    requires
        !list.contains(w),
    ensures
        add_unique(list, w).filter(|x: IdView| x != w) == list,
{
    let pred = |x: IdView| x != w;
    lemma_filter_push(list, w, pred);
    assert forall|i: int| 0 <= i < list.len() implies pred(#[trigger] list[i]) by {
        if list[i] == w {
            assert(list.contains(w));
        }
    }
    lemma_filter_all_true(list, pred);
}

/// In capture-all mode every window is captured.
pub proof fn lemma_capture_all_mode(s: WindowFilterSettings, w: IdView, preview: Option<IdView>)
    requires
        s.mode == WindowFilterMode::CaptureAll,
    ensures
        should_capture_spec(s, w, preview),
{
}

/// In include-only mode a window is captured exactly when it is listed; with
/// an empty list nothing is captured.
pub proof fn lemma_include_only_mode(s: WindowFilterSettings, w: IdView, preview: Option<IdView>)
    requires
        s.mode == WindowFilterMode::IncludeOnly,
    ensures
        should_capture_spec(s, w, preview) == ids_view(s.included_windows@).contains(w),
{
}

/// After the manual exclusions are cleared, no manual exclusion is counted and
/// only the preview window can still be excluded.
pub proof fn lemma_cleared_list(s: WindowFilterSettings, w: IdView, preview: Option<IdView>)
    requires
        s.excluded_windows@.len() == 0,
        s.mode == WindowFilterMode::ExcludeList,
    ensures
        ids_view(s.excluded_windows@).filter(|x: IdView| is_manual(x)).len() == 0,
        should_capture_spec(s, w, preview) == !(s.auto_exclude_preview && !s.dev_mode
            && preview == Some(w)),
{
    let l = ids_view(s.excluded_windows@);
    assert(l =~= Seq::<IdView>::empty());
    reveal_with_fuel(Seq::<_>::filter, 1);
    let e = exclusions_spec(l, s.auto_exclude_preview, s.dev_mode, preview);
    if s.auto_exclude_preview && !s.dev_mode && preview is Some {
        assert(e =~= seq![preview->0]);
        if preview->0 == w {
            assert(e[0] == w);
        }
    } else {
        assert(e =~= Seq::<IdView>::empty());
    }
}

} // verus!
