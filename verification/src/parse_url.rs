//! Deciding how the argument of `play` is to be turned into track URLs.

use vstd::prelude::*;
use crate::text::{contains, has_prefix, starts_with, views};
use crate::soundcloud_api::{is_soundcloud_playlist_url, is_soundcloud_url};

verus! {

/// How the argument of `play` is served.
#[derive(Clone, Copy, Debug, PartialEq, Eq, Structural)]
pub enum QueryRoute {
    /// Fetch the videos of a YouTube playlist.
    YoutubePlaylist,
    /// Fetch the tracks of a SoundCloud playlist.
    SoundcloudPlaylist,
    /// Play the URL itself.
    SingleUrl,
    /// A link to a site that is not supported.
    Unsupported,
    /// Not a link: search YouTube for it and play the first result.
    Search,
}

impl QueryRoute {
    /// The key of the message given where the route fails: the playlist
    /// could not be fetched, the link is not supported, or the search failed.
    /// A single URL is played as it is and cannot fail here.
    pub fn error_key(&self) -> (r: Option<&'static str>)
        ensures
            match *self {
                QueryRoute::YoutubePlaylist => r is Some && r->0@ == "music-playlist-fetch-error"@,
                QueryRoute::SoundcloudPlaylist => r is Some && r->0@
                    == "music-playlist-fetch-error"@,
                QueryRoute::SingleUrl => r is None,
                QueryRoute::Unsupported => r is Some && r->0@ == "music-note"@,
                QueryRoute::Search => r is Some && r->0@ == "music-search-error"@,
            },
    {
        match self {
            QueryRoute::YoutubePlaylist => Some("music-playlist-fetch-error"),
            QueryRoute::SoundcloudPlaylist => Some("music-playlist-fetch-error"),
            QueryRoute::SingleUrl => None,
            QueryRoute::Unsupported => Some("music-note"),
            QueryRoute::Search => Some("music-search-error"),
        }
    }
}

/// The route of `url`, given whether it is a YouTube link and a YouTube
/// playlist link: links (`http://`, `https://`) to YouTube or SoundCloud are
/// played, playlists first; other links are refused; anything else is searched.
pub open spec fn query_route(url: Seq<char>, youtube_url: bool, youtube_playlist: bool) -> QueryRoute {
    if has_prefix(url, "http://"@) || has_prefix(url, "https://"@) {
        if youtube_url || contains(url, "soundcloud.com"@) {
            if youtube_playlist {
                QueryRoute::YoutubePlaylist
            } else if contains(url, "soundcloud.com"@) && contains(url, "/sets/"@) {
                QueryRoute::SoundcloudPlaylist
            } else {
                QueryRoute::SingleUrl
            }
        } else {
            QueryRoute::Unsupported
        }
    } else {
        QueryRoute::Search
    }
}

pub fn route_query(url: &str, youtube_url: bool, youtube_playlist: bool) -> (r: QueryRoute)
    ensures
        r == query_route(url@, youtube_url, youtube_playlist),
{
    if starts_with(url, "http://") || starts_with(url, "https://") {
        if youtube_url || is_soundcloud_url(url) {
            if youtube_playlist {
                QueryRoute::YoutubePlaylist
            } else if is_soundcloud_playlist_url(url) {
                QueryRoute::SoundcloudPlaylist
            } else {
                QueryRoute::SingleUrl
            }
        } else {
            QueryRoute::Unsupported
        }
    } else {
        QueryRoute::Search
    }
}

/// The track URLs of `play`'s argument once the outside work of its route
/// is done: `fetched` is what the playlist fetch or the YouTube search gave
/// (the search gives its first result alone), `None` where it failed. A
/// single URL is played as it is; an unsupported link is refused. The error
/// is the key of the message to show.
pub fn query_tracks(url: &str, route: QueryRoute, fetched: Option<Vec<String>>) -> (r: Result<
    Vec<String>,
    &'static str,
>)
    ensures
        route == QueryRoute::SingleUrl ==> r is Ok && views(r->Ok_0@) == seq![url@],
        route == QueryRoute::Unsupported ==> r is Err && r->Err_0@ == "music-note"@,
        route != QueryRoute::SingleUrl && route != QueryRoute::Unsupported ==> match fetched {
            Some(v) => r is Ok && r->Ok_0@ == v@,
            None => r is Err && r->Err_0@ == (if route == QueryRoute::Search {
                "music-search-error"@
            } else {
                "music-playlist-fetch-error"@
            }),
        },
{
    match route {
        QueryRoute::SingleUrl => {
            let v = vec![String::from_str(url)];
            assert(views(v@) =~= seq![url@]);
            Ok(v)
        },
        QueryRoute::Unsupported => Err("music-note"),
        _ => match fetched {
            Some(v) => Ok(v),
            None => {
                if route == QueryRoute::Search {
                    Err("music-search-error")
                } else {
                    Err("music-playlist-fetch-error")
                }
            },
        },
    }
}

} // verus!
