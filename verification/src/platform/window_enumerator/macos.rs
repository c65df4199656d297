//! macOS window enumeration: the window server's list, grouped under the
//! running applications.
use vstd::prelude::*;
use super::{
    apps_view, filter_cg_windows, group_windows_by_app, grouped_apps, kept_cg_windows,
    AppView, AvailableApp, CgWindow, CgWindowEntry, RunningApp, WindowEnumerator,
    lemma_grouped_apps_well_formed, lemma_kept_cg_windows_titled, listing_well_formed,
};

verus! {

/// What the application reads on macOS: the window server's list of
/// on-screen windows, and the running applications (`None` where the
/// workspace gave none).
pub struct MacWindowSource {
    pub windows: Vec<CgWindowEntry>,
    pub running_apps: Option<Vec<RunningApp>>,
}

/// System services that are never offered for sharing.
pub open spec fn ignored_bundle_ids_spec() -> Seq<Seq<char>> {
    seq![
        "com.apple.dock"@,
        "com.apple.controlcenter"@,
        "com.apple.notificationcenterui"@,
        "com.apple.WindowServer"@,
        "com.apple.Spotlight"@,
        "com.apple.systemuiserver"@,
        "com.apple.coreservices.uiagent"@,
    ]
}

/// System services that are never offered for sharing.
pub fn ignored_bundle_ids() -> (r: Vec<String>)
    ensures
        r@.map_values(|s: String| s@) == ignored_bundle_ids_spec(),
{
    let mut v: Vec<String> = Vec::new();
    v.push("com.apple.dock".to_owned());
    v.push("com.apple.controlcenter".to_owned());
    v.push("com.apple.notificationcenterui".to_owned());
    v.push("com.apple.WindowServer".to_owned());
    v.push("com.apple.Spotlight".to_owned());
    v.push("com.apple.systemuiserver".to_owned());
    v.push("com.apple.coreservices.uiagent".to_owned());
    assert(v@.map_values(|s: String| s@) =~= ignored_bundle_ids_spec());
    v
}

/// The shareable windows macOS lists: the normal-layer, shareable, titled
/// windows, grouped under the running applications that are not system
/// services.
pub open spec fn macos_apps_spec(source: MacWindowSource) -> Seq<AppView> {
    match source.running_apps {
        Some(apps) => grouped_apps(
            kept_cg_windows(source.windows@, true),
            apps@,
            apps@.len() as int,
            ignored_bundle_ids_spec(),
        ),
        None => Seq::<AppView>::empty(),
    }
}

/// The macOS enumerator.
pub struct PlatformWindowEnumerator;

impl WindowEnumerator for PlatformWindowEnumerator {
    type Source = MacWindowSource;

    open spec fn listed_apps(source: MacWindowSource) -> Seq<AppView> {
        macos_apps_spec(source)
    }

    fn enumerate_windows(source: MacWindowSource) -> (r: Result<Vec<AvailableApp>, String>)
        ensures
            r matches Ok(apps) && apps_view(apps@) == macos_apps_spec(source),
    {
        let windows: Vec<CgWindow> = filter_cg_windows(&source.windows, true);
        match source.running_apps {
            Some(apps) => {
                let ignored = ignored_bundle_ids();
                Ok(group_windows_by_app(&windows, &apps, &ignored))
            },
            None => Ok(Vec::new()),
        }
    }

    fn supports_sharing_state() -> (r: bool)
        ensures
            r,
    {
        true
    }
}

/// What macOS lists is well formed: every application has a window and
/// every window a title.
pub proof fn lemma_listing_well_formed(source: MacWindowSource)
    ensures
        listing_well_formed(<PlatformWindowEnumerator as WindowEnumerator>::listed_apps(source)),
{
    let ws = kept_cg_windows(source.windows@, true);
    lemma_kept_cg_windows_titled(source.windows@, true);
    match source.running_apps {
        Some(apps) => {
            lemma_grouped_apps_well_formed(ws, apps@, apps@.len() as int, ignored_bundle_ids_spec());
        },
        None => {},
    }
}

} // verus!
