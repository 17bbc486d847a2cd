//! Rules of the online wallpaper download: which address to ask, how many
//! attempts, and which responses count as an image.

use crate::settings::DEFAULT_WALLPAPER_URL;
use crate::text::{spec_trim, trim};
use vstd::prelude::*;

verus! {

/// Downloads tried before giving up.
pub const FETCH_ATTEMPTS: u32 = 2;

/// The default image source.
pub fn default_url() -> (res: &'static str)
    ensures
        res@ == DEFAULT_WALLPAPER_URL@,
{
    DEFAULT_WALLPAPER_URL
}

/// The address to download from: the configured one unless it is absent or
/// blank, else the default source.
pub open spec fn spec_fetch_url(url: Option<Seq<char>>) -> Seq<char> {
    match url {
        Some(u) => if spec_trim(u).len() == 0 {
            DEFAULT_WALLPAPER_URL@
        } else {
            u
        },
        None => DEFAULT_WALLPAPER_URL@,
    }
}

/// The address to download from (see [`spec_fetch_url`]).
pub fn fetch_url(url: Option<&str>) -> (res: String)
    ensures
        res@ == spec_fetch_url(
            match url {
                Some(u) => Some(u@),
                None => None,
            },
        ),
{
    match url {
        Some(u) => {
            if trim(u).unicode_len() == 0 {
                default_url().to_owned()
            } else {
                u.to_owned()
            }
        },
        None => default_url().to_owned(),
    }
}

/// A response is kept only with status 200 and a body over 30 000 bytes
/// (smaller bodies are error pages).
pub fn accept_download(status: u16, body_len: usize) -> (res: bool)
    ensures
        res == (status == 200 && body_len > 30_000),
{
    status == 200 && body_len > 30_000
}

} // verus!
