//! Windows window enumeration: the top-level windows grouped by process,
//! each process named by its executable.
use vstd::prelude::*;
use super::{
    AppView, apps_view, collect_process_windows, first_seen_pids, kept_win32_windows, process_fallback_names,
    process_names, processes_view, windows_view, windows_with_pid, AvailableApp, ProcessWindows,
    Win32WindowEntry, WindowEnumerator, lemma_collected_processes_titled, listing_well_formed,
};

verus! {

/// What the application reads on Windows: the top-level windows in the
/// system's order, and the executable name (the stem of its file name) of
/// each process that could be queried.
pub struct Win32WindowSource {
    pub windows: Vec<Win32WindowEntry>,
    pub identities: Vec<(u32, String)>,
}

/// The executable name recorded for a pid: the first entry with that pid.
pub open spec fn identity_of(ids: Seq<(u32, String)>, pid: u32) -> Option<Seq<char>>
    decreases ids.len(),
{
    if ids.len() == 0 {
        None
    } else if ids[0].0 == pid {
        Some(ids[0].1@)
    } else {
        identity_of(ids.drop_first(), pid)
    }
}

/// What Windows lists: one application per process that owns a listed
/// window, in the order the processes first own one, named by the process's
/// executable (or by its pid), with its listed windows in order.
pub open spec fn win32_listing(windows: Seq<Win32WindowEntry>, ids: Seq<(u32, String)>) -> Seq<AppView> {
    let kept = kept_win32_windows(windows);
    first_seen_pids(kept).map_values(
        |p: u32|
            {
                let names = process_names(p, identity_of(ids, p));
                (names.0, names.1, windows_with_pid(kept, p))
            },
    )
}

/// The executable name recorded for a pid.
fn find_identity(ids: &Vec<(u32, String)>, pid: u32) -> (r: Option<String>)
    ensures
        match r {
            Some(s) => identity_of(ids@, pid) == Some(s@),
            None => identity_of(ids@, pid) is None,
        },
{
    let mut i: usize = 0;
    assert(ids@.skip(0) =~= ids@);
    while i < ids.len()
        invariant
            0 <= i <= ids@.len(),
            identity_of(ids@, pid) == identity_of(ids@.skip(i as int), pid),
        decreases ids.len() - i,
    {
        assert(ids@.skip(i as int).drop_first() =~= ids@.skip(i + 1));
        if ids[i].0 == pid {
            return Some(ids[i].1.clone());
        }
        i = i + 1;
    }
    None
}

/// The Windows enumerator.
pub struct PlatformWindowEnumerator;

impl WindowEnumerator for PlatformWindowEnumerator {
    type Source = Win32WindowSource;

    open spec fn listed_apps(source: Win32WindowSource) -> Seq<AppView> {
        win32_listing(source.windows@, source.identities@)
    }

    fn enumerate_windows(source: Win32WindowSource) -> (r: Result<Vec<AvailableApp>, String>)
        ensures
            r matches Ok(apps) && apps_view(apps@) == win32_listing(source.windows@, source.identities@),
    {
        let ghost kept = kept_win32_windows(source.windows@);
        let ghost listing = win32_listing(source.windows@, source.identities@);
        let ghost pids = first_seen_pids(kept);
        proof {
            lemma_collected_processes_titled(source.windows@);
        }
        let mut rest: Vec<ProcessWindows> = collect_process_windows(&source.windows);
        let ghost all = rest@;
        let total = rest.len();
        assert(processes_view(all).len() == all.len());
        let mut out: Vec<AvailableApp> = Vec::new();
        let mut i: usize = 0;
        assert(rest@ =~= all.skip(0));
        while rest.len() > 0
            invariant
                0 <= i <= all.len(),
                all.len() == total,
                all.len() == pids.len(),
                processes_view(all) == pids.map_values(|p: u32| (p, windows_with_pid(kept, p))),
                forall|k: int| 0 <= k < pids.len() ==> (windows_with_pid(kept, #[trigger] pids[k])).len() > 0,
                rest@ == all.skip(i as int),
                apps_view(out@) == listing.take(i as int),
                listing == win32_listing(source.windows@, source.identities@),
                kept == kept_win32_windows(source.windows@),
                pids == first_seen_pids(kept),
            decreases rest.len(),
        {
            let p = rest.remove(0);
            proof {
                assert(p == all[i as int]);
                assert(rest@ =~= all.skip(i + 1));
                assert(processes_view(all)[i as int] == (p.pid, windows_view(p.windows@)));
                assert(pids.map_values(|q: u32| (q, windows_with_pid(kept, q)))[i as int] == (
                pids[i as int], windows_with_pid(kept, pids[i as int])));
            }
            let ident = find_identity(&source.identities, p.pid);
            let (bundle_id, app_name) = match ident {
                Some(n) => (n.clone(), n),
                None => process_fallback_names(p.pid),
            };
            let ghost before = apps_view(out@);
            if p.windows.len() > 0 {
                out.push(AvailableApp { bundle_id, app_name, windows: p.windows });
                assert(apps_view(out@) =~= before.push(out@.last()@));
            }
            proof {
                assert(windows_view(p.windows@).len() == p.windows@.len());
                assert(listing.take(i + 1) =~= listing.take(i as int).push(listing[i as int]));
            }
            i = i + 1;
        }
        assert(listing.take(all.len() as int) =~= listing);
        Ok(out)
    }

    fn supports_sharing_state() -> (r: bool)
        ensures
            !r,
    {
        false
    }
}

/// What Windows lists is well formed: every application has a window and
/// every window a title.
pub proof fn lemma_listing_well_formed(source: Win32WindowSource)
    ensures
        listing_well_formed(<PlatformWindowEnumerator as WindowEnumerator>::listed_apps(source)),
{
    let kept = kept_win32_windows(source.windows@);
    let listing = win32_listing(source.windows@, source.identities@);
    lemma_collected_processes_titled(source.windows@);
    assert forall|i: int| 0 <= i < listing.len() implies {
        &&& (#[trigger] listing[i]).2.len() > 0
        &&& forall|j: int| 0 <= j < listing[i].2.len() ==> (#[trigger] listing[i].2[j]).1.len() > 0
    } by {
        let p = first_seen_pids(kept)[i];
        assert(listing[i].2 == windows_with_pid(kept, p));
    }
}

} // verus!
