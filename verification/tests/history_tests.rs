use yt::history::{entry_line, history_file_text, is_entry_line, load_history, load_watch, parse_entry, prune_history};
use yt::video::Video;

fn lines(ls: &[&str]) -> Vec<Option<String>> {
    ls.iter().map(|l| Some(l.to_string())).collect()
}

#[test]
fn entry_line_format() {
    assert_eq!(entry_line("A title", "abc123", "Chan"), "A title<>ID<>abc123<>CHAN<>Chan");
}

#[test]
fn parse_entry_reads_fields() {
    let (t, i, c) = parse_entry("A title<>ID<>abc123<>CHAN<>Chan");
    assert_eq!((t.as_str(), i.as_str(), c.as_str()), ("A title", "abc123", "Chan"));
}

#[test]
fn parse_entry_roundtrip() {
    let l = entry_line("x <> y", "id-1", "some channel");
    let (t, i, c) = parse_entry(&l);
    assert_eq!((t.as_str(), i.as_str(), c.as_str()), ("x <> y", "id-1", "some channel"));
}

#[test]
fn parse_entry_extra_separators_cut_pieces() {
    let (t, i, c) = parse_entry("a<>ID<>b<>CHAN<>c<>CHAN<>d<>ID<>e");
    assert_eq!((t.as_str(), i.as_str(), c.as_str()), ("a", "b", "c"));
}

#[test]
fn is_entry_line_checks_separators() {
    assert!(is_entry_line("a<>ID<>b<>CHAN<>c"));
    assert!(!is_entry_line("a<>CHAN<>b"));
    assert!(!is_entry_line("a<>ID<>b"));
    assert!(!is_entry_line("a<>ID<>b<>ID<>x<>CHAN<>c"));
    assert!(is_entry_line("<>ID<><>CHAN<>"));
}

#[test]
fn load_history_newest_first() {
    let (vids, titles) = load_history(&lines(&["t1<>ID<>i1<>CHAN<>c1", "t2<>ID<>i2<>CHAN<>c2"]));
    assert_eq!(vids.len(), 2);
    assert_eq!(vids[0].title, "t2");
    assert_eq!(vids[0].id, "i2");
    assert_eq!(vids[0].channel, "c2");
    assert_eq!(vids[0].thumb_url, "");
    assert_eq!(vids[1].title, "t1");
    assert_eq!(titles, vec!["t2".to_string(), "t1".to_string()]);
}

#[test]
fn load_history_unreadable_line_is_error_video() {
    let (vids, titles) = load_history(&vec![None, Some("t<>ID<>i<>CHAN<>c".to_string())]);
    assert_eq!(vids[1].title, "error");
    assert_eq!(vids[1].id, "error");
    assert_eq!(vids[1].channel, "error");
    assert_eq!(titles[0], "t");
}

#[test]
fn load_history_empty() {
    let (vids, titles) = load_history(&Vec::new());
    assert!(vids.is_empty());
    assert!(titles.is_empty());
}

#[test]
fn load_watch_newest_first() {
    let (vids, titles) = load_watch(&lines(&["a<>ID<>1<>CHAN<>x", "b<>ID<>2<>CHAN<>y", "c<>ID<>3<>CHAN<>z"]));
    assert_eq!(titles, vec!["c".to_string(), "b".to_string(), "a".to_string()]);
    assert_eq!(vids[2].id, "1");
}

#[test]
fn history_file_text_lines() {
    let v = vec![
        Video::new_light("t1".to_string(), "i1".to_string(), "c1".to_string()),
        Video::new_light("t2".to_string(), "i2".to_string(), "c2".to_string()),
    ];
    assert_eq!(history_file_text(&v), "t1<>ID<>i1<>CHAN<>c1\nt2<>ID<>i2<>CHAN<>c2\n");
    assert_eq!(history_file_text(&Vec::new()), "");
}

#[test]
fn prune_history_keeps_newest_of_each_id() {
    let l = lines(&[
        "old<>ID<>A<>CHAN<>c",
        "b<>ID<>B<>CHAN<>c",
        "new<>ID<>A<>CHAN<>c",
    ]);
    assert_eq!(prune_history(&l), "new<>ID<>A<>CHAN<>c\nb<>ID<>B<>CHAN<>c\n");
}

#[test]
fn write_then_load_gives_back_videos() {
    let written = [("one", "1", "x"), ("two", "2", "y")];
    let text: String = written.iter().map(|(t, i, c)| entry_line(t, i, c) + "\n").collect();
    let ls: Vec<Option<String>> = text.lines().map(|l| Some(l.to_string())).collect();
    let (vids, _) = load_history(&ls);
    assert_eq!(vids[0].title, "two");
    assert_eq!(vids[0].id, "2");
    assert_eq!(vids[0].channel, "y");
    assert_eq!(vids[1].title, "one");
}
