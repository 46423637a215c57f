use yt::text::{to_decimal, substring, chars_of};
use yt::video::Video;
use yt::unique::{unique_by_id, unique_strings};

fn vid(id: &str, title: &str) -> Video {
    Video::new(
        id.to_string(),
        title.to_string(),
        "thumb".to_string(),
        "10 views".to_string(),
        "1 day ago".to_string(),
        "chan".to_string(),
        "/c/chan".to_string(),
    )
}

#[test]
fn new_light_leaves_other_fields_empty() {
    let v = Video::new_light("t".to_string(), "i".to_string(), "c".to_string());
    assert_eq!(v.title, "t");
    assert_eq!(v.id, "i");
    assert_eq!(v.channel, "c");
    assert_eq!(v.thumb_url, "");
    assert_eq!(v.view_count, "");
    assert_eq!(v.posted_time, "");
    assert_eq!(v.channel_url, "");
}

#[test]
fn get_url_is_watch_page() {
    assert_eq!(vid("dQw4w9WgXcQ", "t").get_url(), "https://www.youtube.com/watch?v=dQw4w9WgXcQ");
}

#[test]
fn get_thumb_loc_picks_file_or_placeholder() {
    assert_eq!(vid("abc", "t").get_thumb_loc(true), "abc.jpg");
    assert_eq!(vid("abc", "t").get_thumb_loc(false), "loadingPath.pg");
    assert_eq!(vid("abc", "t").thumb_file_name(), "abc.jpg");
}

#[test]
fn clone_keeps_fields() {
    let v = vid("x", "y");
    let w = v.clone();
    assert_eq!(w.id, "x");
    assert_eq!(w.title, "y");
    assert_eq!(w.channel_url, "/c/chan");
}

#[test]
fn unique_by_id_keeps_first() {
    let v = vec![vid("a", "1"), vid("b", "2"), vid("a", "3"), vid("c", "4"), vid("b", "5")];
    let u = unique_by_id(&v);
    let got: Vec<(&str, &str)> = u.iter().map(|x| (x.id.as_str(), x.title.as_str())).collect();
    assert_eq!(got, vec![("a", "1"), ("b", "2"), ("c", "4")]);
}

#[test]
fn unique_strings_keeps_first() {
    let v: Vec<String> = ["x", "y", "x", "z", "y"].iter().map(|s| s.to_string()).collect();
    assert_eq!(unique_strings(&v), vec!["x".to_string(), "y".to_string(), "z".to_string()]);
    assert!(unique_strings(&Vec::new()).is_empty());
}

#[test]
fn decimal_numerals() {
    assert_eq!(to_decimal(0), "0");
    assert_eq!(to_decimal(7), "7");
    assert_eq!(to_decimal(50), "50");
    assert_eq!(to_decimal(1234567890), "1234567890");
    assert_eq!(to_decimal(u64::MAX), u64::MAX.to_string());
}

#[test]
fn substring_by_chars() {
    assert_eq!(substring("héllo", 1, 4), "éll");
    assert_eq!(chars_of("héllo"), vec!['h', 'é', 'l', 'l', 'o']);
}
