use yt::channel::YTChannel;
use yt::menu::Menu;
use yt::ui::{
    content_titles, should_download_thumb, menu_titles, play_from_channel, thumb_file, thumb_from_video, video_desc,
    Action, App, Contents, ImageChoice, Load,
};
use yt::ui::{next_row, previous_row};
use yt::video::Video;

fn vid(id: &str, title: &str) -> Video {
    Video::new(
        id.to_string(),
        title.to_string(),
        format!("http://img/{}", id),
        "9 views".to_string(),
        "now".to_string(),
        "Chan".to_string(),
        "UCchan".to_string(),
    )
}

fn chan(id: &str, name: &str) -> YTChannel {
    YTChannel::new(name.to_string(), id.to_string(), String::new(), String::new(), String::new(), None)
}

fn vid_app() -> App {
    App::new(Contents::Vid(vec![vid("a", "A"), vid("b", "B"), vid("c", "C")]))
}

fn chan_app() -> App {
    App::new(Contents::Chan(vec![chan("UC1", "One"), chan("UC2", "Two")]))
}

#[test]
fn new_app_starts_home() {
    let a = vid_app();
    assert_eq!(a.menu_active, Menu::Home);
    assert_eq!(a.menu_titles, vec!["Home", "Recent", "Channels", "History", "Watch Later"]);
    assert_eq!(menu_titles(), vec!["Home", "Recent", "Channels", "History", "Watch Later"]);
    let b = App::new_from_menu(Menu::History);
    assert_eq!(b.menu_active, Menu::History);
    assert!(matches!(b.content, Contents::Vid(ref v) if v.is_empty()));
}

#[test]
fn titles_of_content() {
    assert_eq!(content_titles(&vid_app().content), vec!["A".to_string(), "B".to_string(), "C".to_string()]);
    assert_eq!(content_titles(&chan_app().content), vec!["One".to_string(), "Two".to_string()]);
}

#[test]
fn refresh_loads_active_tab() {
    let mut a = vid_app();
    assert_eq!(a.refresh(None), Load::Home);
    a.menu_active = Menu::WatchList;
    assert_eq!(a.refresh(Some(2)), Load::WatchList);
    let mut c = chan_app();
    c.menu_active = Menu::ChannelVideos;
    assert_eq!(c.refresh(Some(1)), Load::ChannelVideos(1));
    assert_eq!(c.refresh(None), Load::ChannelVideos(0));
}

#[test]
fn set_content_gives_titles() {
    let mut a = vid_app();
    let t = a.set_content(Contents::Chan(vec![chan("UC9", "Nine")]));
    assert_eq!(t, vec!["Nine".to_string()]);
    assert!(matches!(a.content, Contents::Chan(_)));
}

#[test]
fn tab_moves_to_next() {
    let mut a = vid_app();
    assert!(matches!(a.on_tab(), Action::Refresh));
    assert_eq!(a.menu_active, Menu::Recent);
    a.on_tab();
    a.on_tab();
    assert_eq!(a.menu_active, Menu::Home);
}

#[test]
fn enter_plays_or_opens_channel() {
    let mut a = vid_app();
    match a.on_enter(Some(1)) {
        Action::Play { title, id, chan, video } => {
            assert_eq!((title.as_str(), id.as_str(), chan.as_str()), ("B", "b", "Chan"));
            assert_eq!(video.id, "b");
        },
        _ => panic!("expected play"),
    }
    match a.on_enter(None) {
        Action::Play { id, .. } => assert_eq!(id, "a"),
        _ => panic!("expected play"),
    }
    let mut c = chan_app();
    assert!(matches!(c.on_enter(Some(0)), Action::Refresh));
    assert_eq!(c.menu_active, Menu::ChannelVideos);
}

#[test]
fn chars_on_videos() {
    let mut a = vid_app();
    match a.on_char('y', Some(2)) {
        Action::OpenInBrowser(u) => assert_eq!(u, "https://www.youtube.com/watch?v=c"),
        _ => panic!("expected browser"),
    }
    match a.on_char('w', Some(0)) {
        Action::SaveWatch { title, id, chan } => assert_eq!((title.as_str(), id.as_str(), chan.as_str()), ("A", "a", "Chan")),
        _ => panic!("expected watch"),
    }
    match a.on_char('W', Some(1)) {
        Action::SaveWatchAndDownload { id, url, .. } => {
            assert_eq!(id, "b");
            assert_eq!(url, "https://www.youtube.com/watch?v=b");
        },
        _ => panic!("expected watch and download"),
    }
    assert!(matches!(a.on_char('z', Some(99)), Action::Nothing));
    assert!(matches!(a.on_char('r', None), Action::Refresh));
    assert_eq!(a.menu_active, Menu::Recent);
}

#[test]
fn chars_on_channels() {
    let mut c = chan_app();
    match c.on_char('y', Some(1)) {
        Action::OpenInBrowser(u) => assert_eq!(u, "https://www.youtube.com/channel/UC2"),
        _ => panic!("expected browser"),
    }
    assert!(matches!(c.on_char('3', Some(1)), Action::ChannelVideos { channel: 1, play: Some(2) }));
    assert!(matches!(c.on_char('x', None), Action::ChannelVideos { channel: 0, play: None }));
    assert!(matches!(c.on_char('p', None), Action::Refresh));
    assert_eq!(c.menu_active, Menu::History);
}

#[test]
fn play_from_channel_records_channel_id() {
    let v = vec![vid("a", "A"), vid("b", "B")];
    match play_from_channel(&v, 1) {
        Action::Play { title, id, chan, .. } => assert_eq!((title.as_str(), id.as_str(), chan.as_str()), ("B", "b", "UCchan")),
        _ => panic!("expected play"),
    }
}

#[test]
fn thumbnails() {
    let v = vid("abc", "T");
    assert_eq!(thumb_file("/c", &v), "/c/abc.jpg");
    assert!(matches!(thumb_from_video(&v, "/c", "/p", true), ImageChoice::Show(ref p) if p == "/c/abc.jpg"));
    match thumb_from_video(&v, "/c", "/p", false) {
        ImageChoice::Fetch { file, url, show } => {
            assert_eq!(file, "/c/abc.jpg");
            assert_eq!(url, "http://img/abc");
            assert_eq!(show, "/p/loadingPath.png");
        },
        _ => panic!("expected fetch"),
    }
    let a = vid_app();
    assert!(matches!(a.return_img_path(2, "/c", "/p", true), ImageChoice::Show(ref p) if p == "/c/c.jpg"));
    assert!(matches!(chan_app().return_img_path(7, "/c", "/p", true), ImageChoice::Nothing));
}

#[test]
fn prefetch_next_two() {
    let a = vid_app();
    assert_eq!(a.prefetch_rows(0), vec![1, 2]);
    assert_eq!(a.prefetch_rows(1), vec![2]);
    assert_eq!(a.prefetch_rows(2), Vec::<usize>::new());
    assert_eq!(chan_app().prefetch_rows(0), Vec::<usize>::new());
}

#[test]
fn download_decision() {
    assert!(should_download_thumb("/c/a.jpg", "http://x", false, false));
    assert!(!should_download_thumb("/c/a.jpg", "http://x", true, false));
    assert!(should_download_thumb("/c/a.jpg", "http://x", true, true));
    assert!(!should_download_thumb("", "http://x", false, false));
    assert!(!should_download_thumb("/c/a.jpg", "", false, true));
}

#[test]
fn description_text() {
    assert_eq!(video_desc(&vid("a", "A")), "Title: A\nView Count: 9 views\nPosted Time: now\nChannel: Chan");
}

#[test]
fn row_moves_wrap() {
    assert_eq!(next_row(None, 3), Some(0));
    assert_eq!(next_row(Some(0), 3), Some(1));
    assert_eq!(next_row(Some(2), 3), Some(0));
    assert_eq!(previous_row(Some(0), 3), Some(2));
    assert_eq!(previous_row(Some(2), 3), Some(1));
    assert_eq!(previous_row(None, 3), Some(0));
    assert_eq!(next_row(None, 0), None);
    assert_eq!(previous_row(Some(4), 0), Some(4));
}
