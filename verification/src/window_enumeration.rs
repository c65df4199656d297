//! The running applications and their windows, for the window exclusion
//! settings.
use vstd::prelude::*;
use crate::platform::window_enumerator::{
    apps_view, filter_cg_windows, group_windows_by_app, grouped_apps, kept_cg_windows, AppView,
    CgWindowEntry, RunningApp,
};
pub use crate::platform::window_enumerator::{AvailableApp, AvailableWindow};
use crate::platform_info::OsKind;

verus! {

/// The applications listed for exclusion: on macOS the titled windows of
/// the window server's list (`windows`), grouped under the running
/// applications (`running_apps`, `None` where the workspace gave none);
/// nothing on Windows and Linux yet.
pub open spec fn available_windows_spec(
    os: OsKind,
    windows: Seq<CgWindowEntry>,
    running_apps: Option<Seq<RunningApp>>,
) -> Seq<AppView> {
    match (os, running_apps) {
        (OsKind::MacOs, Some(apps)) => grouped_apps(
            kept_cg_windows(windows, false),
            apps,
            apps.len() as int,
            Seq::<Seq<char>>::empty(),
        ),
        _ => Seq::<AppView>::empty(),
    }
}

/// The running applications and their windows.
pub fn get_available_windows(os: OsKind, windows: &Vec<CgWindowEntry>, running_apps: Option<Vec<RunningApp>>) -> (r:
    Result<Vec<AvailableApp>, String>)
    ensures
        r matches Ok(apps) && apps_view(apps@) == available_windows_spec(
            os,
            windows@,
            match running_apps {
                Some(a) => Some(a@),
                None => None,
            },
        ),
{
    match os {
        OsKind::MacOs => {
            let kept = filter_cg_windows(windows, false);
            match running_apps {
                Some(apps) => {
                    let ignored: Vec<String> = Vec::new();
                    assert(ignored@.map_values(|s: String| s@) =~= Seq::<Seq<char>>::empty());
                    Ok(group_windows_by_app(&kept, &apps, &ignored))
                },
                None => Ok(Vec::new()),
            }
        },
        _ => Ok(Vec::new()),
    }
}

} // verus!
