//! What the external programs are run on: the player, the downloader and
//! the browser.
use vstd::prelude::*;
use crate::video::{Video, watch_url};

verus! {

/// The file a downloaded video is kept in.
pub open spec fn cached_video(dir: Seq<char>, id: Seq<char>) -> Seq<char> {
    dir + "/"@ + id + ".webm"@
}

/// The file a downloaded video would be kept in.
pub fn cached_video_path(dir: &str, vid: &Video) -> (r: String)
    ensures
        r@ == cached_video(dir@, vid.id@),
{
    String::from_str(dir).concat("/").concat(vid.id.as_str()).concat(".webm")
}

/// What the player is given for a video: the downloaded file when it
/// exists, and the watch page otherwise.
pub fn play_target(dir: &str, vid: &Video, downloaded: bool) -> (r: String)
    ensures
        downloaded ==> r@ == cached_video(dir@, vid.id@),
        !downloaded ==> r@ == watch_url(vid.id@),
{
    if downloaded {
        cached_video_path(dir, vid)
    } else {
        vid.clone().get_url()
    }
}

/// The name pattern under which the downloader stores videos in `dir`.
pub fn download_template(dir: &str) -> (r: String)
    ensures
        r@ == dir@ + "/%(id)s.%(ext)s"@,
{
    String::from_str(dir).concat("/%(id)s.%(ext)s")
}

/// The page of a channel.
pub fn channel_url(id: &str) -> (r: String)
    ensures
        r@ == "https://www.youtube.com/channel/"@ + id@,
{
    String::from_str("https://www.youtube.com/channel/").concat(id)
}

} // verus!
