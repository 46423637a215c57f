//! The user's settings: what the configuration file gives, and the defaults
//! under the home directory for what it leaves out.
use vstd::prelude::*;

verus! {

/// The configuration file, as written.
#[derive(Debug)]
pub struct Config {
    pub cookie: String,
    pub api_key: String,
    pub channel_id: String,
    pub cachepath: Option<String>,
    pub cache_size_max: Option<usize>,
    pub video_dir: Option<String>,
    pub permapath: Option<String>,
}

/// The settings the program runs with.
#[derive(Debug)]
pub struct Settings {
    pub yt_cookies: String,
    pub yt_api_key: String,
    pub yt_self_channel_name: String,
    pub cache_path: String,
    pub cache_max_size: usize,
    pub cache_video_dir: String,
    pub perma: String,
}

/// The text of an optional setting, or the default.
pub open spec fn or_default(v: Option<String>, d: Seq<char>) -> Seq<char> {
    match v {
        Some(s) => s@,
        None => d,
    }
}

fn text_or(v: Option<String>, d: String) -> (r: String)
    ensures
        r@ == or_default(v, d@),
{
    match v {
        Some(s) => s,
        None => d,
    }
}

/// The settings for a configuration file, with the home directory `home`:
/// the cache defaults to `home/.cache/yt` with at most 64 MB, the videos to
/// `home/.local/share/yt/videos`, the shared files to `home/.local/share/yt/`.
pub fn set_configs(cfg: Config, home: &str) -> (s: Settings)
    ensures
        s.yt_api_key@ == cfg.api_key@,
        s.yt_cookies@ == cfg.cookie@,
        s.yt_self_channel_name@ == cfg.channel_id@,
        s.cache_path@ == or_default(cfg.cachepath, home@ + "/.cache/yt"@),
        s.cache_max_size == match cfg.cache_size_max {
            Some(n) => n,
            None => 64,
        },
        s.cache_video_dir@ == or_default(cfg.video_dir, home@ + "/.local/share/yt/videos"@),
        s.perma@ == or_default(cfg.permapath, home@ + "/.local/share/yt/"@),
{
    let cache_path = text_or(cfg.cachepath, String::from_str(home).concat("/.cache/yt"));
    let cache_max_size = match cfg.cache_size_max {
        Some(n) => n,
        None => 64,
    };
    let cache_video_dir = text_or(cfg.video_dir, String::from_str(home).concat("/.local/share/yt/videos"));
    let perma = text_or(cfg.permapath, String::from_str(home).concat("/.local/share/yt/"));
    Settings {
        yt_cookies: cfg.cookie,
        yt_api_key: cfg.api_key,
        yt_self_channel_name: cfg.channel_id,
        cache_path,
        cache_max_size,
        cache_video_dir,
        perma,
    }
}

} // verus!
