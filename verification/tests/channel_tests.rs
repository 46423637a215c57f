use yt::channel::{channel_entry_file, channel_list_entry, updated_channel_list, YTChannel};
use yt::video::Video;

fn chan(uploads: Option<&str>) -> YTChannel {
    YTChannel::new(
        "Name".to_string(),
        "UC1".to_string(),
        "desc".to_string(),
        "thumb".to_string(),
        "".to_string(),
        uploads.map(|s| s.to_string()),
    )
}

fn vid(id: &str) -> Video {
    Video::new_light(format!("title {}", id), id.to_string(), "c".to_string())
}

fn ids(v: &[Video]) -> Vec<&str> {
    v.iter().map(|x| x.id.as_str()).collect()
}

#[test]
fn new_takes_uploads_or_empty() {
    assert_eq!(chan(Some("UU1")).upload_playlist, "UU1");
    assert_eq!(chan(None).upload_playlist, "");
    let c = chan(None);
    assert_eq!(c.name, "Name");
    assert_eq!(c.id, "UC1");
    assert_eq!(c.page_token, (String::new(), String::new()));
}

#[test]
fn channel_paths() {
    let c = chan(None);
    assert_eq!(c.folder_path("/cache"), "/cache/UC1");
    assert_eq!(c.channel_file("/cache"), "/cache/UC1/UC1.json");
    assert_eq!(c.videos_file("/cache"), "/cache/UC1/UC1_vids.json");
    assert_eq!(channel_list_entry("/perma", "UC1"), "/perma/UC1/UC1");
    assert_eq!(channel_entry_file("/perma/UC1/UC1"), "/perma/UC1/UC1.json");
}

#[test]
fn update_videos_puts_new_in_front() {
    let c = chan(None);
    let fresh = vec![vid("n1"), vid("n2"), vid("o1"), vid("o2")];
    let stored = vec![vid("o1"), vid("o2"), vid("o3")];
    let all = c.update_videos(&fresh, &stored).unwrap();
    assert_eq!(ids(&all), vec!["n1", "n2", "o1", "o2", "o3"]);
}

#[test]
fn update_videos_nothing_new() {
    let c = chan(None);
    let fresh = vec![vid("o1"), vid("o2")];
    let stored = vec![vid("o1")];
    assert!(c.update_videos(&fresh, &stored).is_none());
}

#[test]
fn update_videos_all_new_when_stored_missing() {
    let c = chan(None);
    let fresh = vec![vid("a"), vid("b")];
    let stored = vec![vid("z")];
    assert_eq!(ids(&c.update_videos(&fresh, &stored).unwrap()), vec!["a", "b", "z"]);
    assert!(c.update_videos(&Vec::new(), &stored).is_none());
}

#[test]
fn update_twice_settles() {
    let c = chan(None);
    let fresh = vec![vid("n1"), vid("o1")];
    let stored = vec![vid("o1")];
    let all = c.update_videos(&fresh, &stored).unwrap();
    assert!(c.update_videos(&fresh, &all).is_none());
}

#[test]
fn updated_channel_list_puts_updated_first() {
    let s = |v: &[&str]| -> Vec<String> { v.iter().map(|x| x.to_string()).collect() };
    assert_eq!(updated_channel_list(&s(&["b", "d"]), &s(&["a", "b", "c", "d"])), s(&["b", "d", "a", "c"]));
    assert_eq!(updated_channel_list(&s(&[]), &s(&["a", "b"])), s(&["a", "b"]));
}
