//! The parts of a YouTube search that do not talk to the network: the request
//! URL, and the watch URL of the first result of the answer.

use vstd::prelude::*;

verus! {

/// The answer of the YouTube search API, as far as it is read.
pub struct YoutubeSearchResponse {
    pub items: Vec<YoutubeVideoItem>,
}

/// One result of a search.
pub struct YoutubeVideoItem {
    pub id: YoutubeVideoId,
}

/// The id of a video.
#[allow(non_snake_case)]
pub struct YoutubeVideoId {
    pub videoId: String,
}

/// The search API URL for `query`, with the API key `api_key`.
pub open spec fn search_url(query: Seq<char>, api_key: Seq<char>) -> Seq<char> {
    "https://www.googleapis.com/youtube/v3/search?part=snippet&q="@ + query + "&type=video&key="@
        + api_key
}

pub fn youtube_search_url(query: &str, api_key: &str) -> (r: String)
    ensures
        r@ == search_url(query@, api_key@),
{
    let mut r = String::from_str("https://www.googleapis.com/youtube/v3/search?part=snippet&q=");
    r.append(query);
    r.append("&type=video&key=");
    r.append(api_key);
    r
}

/// The watch URL of the video with id `id`.
pub open spec fn watch_url(id: Seq<char>) -> Seq<char> {
    "https://www.youtube.com/watch?v="@ + id
}

/// The watch URL of the first video of a search answer; `None` where the
/// answer holds no video ("No results found").
pub fn first_video_url(resp: &YoutubeSearchResponse) -> (r: Option<String>)
    ensures
        resp.items@.len() == 0 ==> r is None,
        resp.items@.len() > 0 ==> r is Some && r->0@ == watch_url(resp.items@[0].id.videoId@),
{
    if resp.items.len() == 0 {
        return None;
    }
    let mut r = String::from_str("https://www.youtube.com/watch?v=");
    r.append(resp.items[0].id.videoId.as_str());
    Some(r)
}

} // verus!
