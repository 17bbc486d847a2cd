//! Which image a wallpaper switch shows: never one that still has to be
//! downloaded.

use vstd::prelude::*;

verus! {

/// Where the next wallpaper comes from.
#[derive(Debug, Clone, Copy, PartialEq, Eq, Structural)]
pub enum WallpaperSource {
    /// The image prefetched in the background.
    Prefetched,
    /// A cached image older than the newest.
    OlderCached,
    /// The newest cached image.
    NewestCached,
    /// The locally rendered fallback.
    Fallback,
}

/// The first ready source in the order prefetched, older cached, newest
/// cached, with the fallback last.
pub open spec fn spec_next_source(prefetched_ready: bool, older_ready: bool, newest_ready: bool) -> WallpaperSource {
    if prefetched_ready {
        WallpaperSource::Prefetched
    } else if older_ready {
        WallpaperSource::OlderCached
    } else if newest_ready {
        WallpaperSource::NewestCached
    } else {
        WallpaperSource::Fallback
    }
}

/// The source of the next wallpaper (see [`spec_next_source`]).
pub fn next_source(prefetched_ready: bool, older_ready: bool, newest_ready: bool) -> (res: WallpaperSource)
    ensures
        res == spec_next_source(prefetched_ready, older_ready, newest_ready),
{
    if prefetched_ready {
        WallpaperSource::Prefetched
    } else if older_ready {
        WallpaperSource::OlderCached
    } else if newest_ready {
        WallpaperSource::NewestCached
    } else {
        WallpaperSource::Fallback
    }
}

} // verus!
