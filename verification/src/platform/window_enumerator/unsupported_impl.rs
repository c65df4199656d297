//! Window enumeration on other systems, which lists nothing.
use vstd::prelude::*;
use super::{apps_view, AppView, AvailableApp, WindowEnumerator, listing_well_formed};

verus! {

/// The enumerator of other systems: no window is listed.
pub struct PlatformWindowEnumerator;

impl WindowEnumerator for PlatformWindowEnumerator {
    type Source = ();

    open spec fn listed_apps(source: ()) -> Seq<AppView> {
        Seq::<AppView>::empty()
    }

    fn enumerate_windows(source: ()) -> (r: Result<Vec<AvailableApp>, String>)
        ensures
            r matches Ok(apps) && apps_view(apps@) == Seq::<AppView>::empty(),
    {
        Ok(Vec::new())
    }

    fn supports_sharing_state() -> (r: bool)
        ensures
            !r,
    {
        false
    }
}

/// What this enumerator lists is well formed: every application has a
/// window and every window a title.
pub proof fn lemma_listing_well_formed(source: ())
    ensures
        listing_well_formed(<PlatformWindowEnumerator as WindowEnumerator>::listed_apps(source)),
{
}

} // verus!
