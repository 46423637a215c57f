use yt::cache::{cache_over_limit, is_thumbnail};
use yt::commands::{cached_video_path, channel_url, play_target, download_template};
use yt::config_reader::{set_configs, Config};
use yt::friendly_panic::{history_panic, watch_panic, Instructions, UserPanic};
use yt::video::Video;

fn cfg(cachepath: Option<&str>, size: Option<usize>) -> Config {
    Config {
        cookie: "COOKIE".to_string(),
        api_key: "KEY".to_string(),
        channel_id: "UCme".to_string(),
        cachepath: cachepath.map(|s| s.to_string()),
        cache_size_max: size,
        video_dir: None,
        permapath: Some("/p".to_string()),
    }
}

#[test]
fn configs_with_defaults() {
    let s = set_configs(cfg(None, None), "/home/u");
    assert_eq!(s.yt_api_key, "KEY");
    assert_eq!(s.yt_cookies, "COOKIE");
    assert_eq!(s.yt_self_channel_name, "UCme");
    assert_eq!(s.cache_path, "/home/u/.cache/yt");
    assert_eq!(s.cache_max_size, 64);
    assert_eq!(s.cache_video_dir, "/home/u/.local/share/yt/videos");
    assert_eq!(s.perma, "/p");
    let t = set_configs(cfg(Some("/c"), Some(10)), "/home/u");
    assert_eq!(t.cache_path, "/c");
    assert_eq!(t.cache_max_size, 10);
}

#[test]
fn instructions_text() {
    let i = Instructions { opener: "Do this", instructions: Some(vec!["first", "second"]) };
    assert_eq!(i.text(), "Do this\n\t1. first\n\t2. second\n");
    let j = Instructions { opener: "Only", instructions: None };
    assert_eq!(j.text(), "Only\n");
}

#[test]
fn user_panic_text() {
    let p = UserPanic { error_msg: "bad", fix_instructions: None };
    assert_eq!(
        p.text(),
        "Whoops!\nUnrecoverable error occerred\n\nIt seems like an error that can't be fixed by you!\nPlease follow the following instructions to submit a Bug report to Developer\nDeveloper contact Steps\n"
    );
    let q = UserPanic {
        error_msg: "bad",
        fix_instructions: Some(vec![Instructions { opener: "Try", instructions: Some(vec!["a"]) }]),
    };
    assert_eq!(
        q.text(),
        "Whoops!\nUnrecoverable error occerred\n\nIt seems like an error that can be fixed by you!\nPlease follow the following instructions to try and fix the bug\n1.  Try\n\t1. a\n\nif you are unable to fix errors after following the fix steps.\nPlease Submit a Bug Report to the Developer\nDeveloper contact Steps\n"
    );
}

#[test]
fn stock_panics() {
    let h = history_panic();
    assert_eq!(h.error_msg, "The program failed to Open History File.");
    let fixes = h.fix_instructions.unwrap();
    assert_eq!(fixes.len(), 2);
    assert_eq!(fixes[1].instructions.as_ref().unwrap()[3], "you can do this by running chmod +rw history.txt");
    let w = watch_panic();
    assert_eq!(w.error_msg, "The program failed to Open Watch Later File.");
    assert!(w.text().contains("2.  Check The permissions of the Watch List file\n"));
}

#[test]
fn commands_targets() {
    let v = Video::new_light("t".to_string(), "abc".to_string(), "c".to_string());
    assert_eq!(cached_video_path("/v", &v), "/v/abc.webm");
    assert_eq!(play_target("/v", &v, true), "/v/abc.webm");
    assert_eq!(play_target("/v", &v, false), "https://www.youtube.com/watch?v=abc");
    assert_eq!(download_template("/v"), "/v/%(id)s.%(ext)s");
    assert_eq!(channel_url("UC1"), "https://www.youtube.com/channel/UC1");
}

#[test]
fn cache_limits() {
    assert!(!cache_over_limit(64_999_999, 64));
    assert!(!cache_over_limit(64_000_000, 64));
    assert!(cache_over_limit(65_000_000, 64));
    assert!(cache_over_limit(1_000_000, 0));
    assert!(is_thumbnail(Some("jpg")));
    assert!(!is_thumbnail(Some("png")));
    assert!(!is_thumbnail(None));
}
