//! Recognising SoundCloud links.

use vstd::prelude::*;
use crate::text::{contains, contains_str};

verus! {

/// Whether `url` is a SoundCloud link: it mentions `soundcloud.com`.
pub fn is_soundcloud_url(url: &str) -> (r: bool)
    ensures
        r == contains(url@, "soundcloud.com"@),
{
    contains_str(url, "soundcloud.com")
}

/// Whether `url` is a SoundCloud playlist: a SoundCloud link with `/sets/` in it.
pub fn is_soundcloud_playlist_url(url: &str) -> (r: bool)
    ensures
        r == (contains(url@, "soundcloud.com"@) && contains(url@, "/sets/"@)),
{
    contains_str(url, "soundcloud.com") && contains_str(url, "/sets/")
}

} // verus!
