//! The state of the interface and what it does on each key: which content
//! to load for a tab, and which action a key asks for.
use vstd::prelude::*;
use crate::menu::{Menu, spec_next, spec_get};
use crate::video::{Video, VideoView, watch_url};
use crate::channel::YTChannel;

verus! {

/// What the interface lists: videos or channels.
pub enum Contents {
    Vid(Vec<Video>),
    Chan(Vec<YTChannel>),
}

/// The interface: what it lists, the titles of the menu bar, and the tab
/// that is active.
pub struct App {
    pub content: Contents,
    pub menu_titles: Vec<&'static str>,
    pub menu_active: Menu,
}

/// What a tab shows, to be loaded: the start feed, the subscription feed,
/// the stored channels, the stored videos of the channel at an index, the
/// history or the watch-later list.
#[derive(PartialEq, Eq, Structural, Clone, Copy, Debug)]
pub enum Load {
    Home,
    Recent,
    Channels,
    ChannelVideos(usize),
    History,
    WatchList,
}

/// What a key asks the program to do.
pub enum Action {
    /// Nothing.
    Nothing,
    /// Load what the active tab shows.
    Refresh,
    /// Record the video in the history, with the given title, id and
    /// channel, and play it.
    Play { title: String, id: String, chan: String, video: Video },
    /// Open a page in the browser.
    OpenInBrowser(String),
    /// Add a video to the watch-later list.
    SaveWatch { title: String, id: String, chan: String },
    /// Add a video to the watch-later list and download it from its page.
    SaveWatchAndDownload { title: String, id: String, chan: String, url: String },
    /// Load the stored videos of the channel at an index and, if a position
    /// is given, play the video there.
    ChannelVideos { channel: usize, play: Option<usize> },
}

/// An action, in text.
pub enum ActionView {
    Nothing,
    Refresh,
    Play { title: Seq<char>, id: Seq<char>, chan: Seq<char>, video: VideoView },
    OpenInBrowser(Seq<char>),
    SaveWatch { title: Seq<char>, id: Seq<char>, chan: Seq<char> },
    SaveWatchAndDownload { title: Seq<char>, id: Seq<char>, chan: Seq<char>, url: Seq<char> },
    ChannelVideos { channel: nat, play: Option<nat> },
}

impl View for Action {
    type V = ActionView;

    open spec fn view(&self) -> ActionView {
        match self {
            Action::Nothing => ActionView::Nothing,
            Action::Refresh => ActionView::Refresh,
            Action::Play { title, id, chan, video } => ActionView::Play {
                title: title@,
                id: id@,
                chan: chan@,
                video: video@,
            },
            Action::OpenInBrowser(u) => ActionView::OpenInBrowser(u@),
            Action::SaveWatch { title, id, chan } => ActionView::SaveWatch { title: title@, id: id@, chan: chan@ },
            Action::SaveWatchAndDownload { title, id, chan, url } => ActionView::SaveWatchAndDownload {
                title: title@,
                id: id@,
                chan: chan@,
                url: url@,
            },
            Action::ChannelVideos { channel, play } => ActionView::ChannelVideos {
                channel: *channel as nat,
                play: match play {
                    Some(k) => Some(*k as nat),
                    None => None,
                },
            },
        }
    }
}

/// The row a key acts on: the selected one, or the first.
pub open spec fn row(selected: Option<usize>) -> nat {
    match selected {
        Some(i) => i as nat,
        None => 0,
    }
}

/// The number of rows that the content lists.
pub open spec fn content_len(c: Contents) -> nat {
    match c {
        Contents::Vid(v) => v@.len(),
        Contents::Chan(c) => c@.len(),
    }
}

/// What the tab `m` loads, given the selected row.
pub open spec fn load_of(m: Menu, selected: Option<usize>) -> Load {
    match m {
        Menu::Home => Load::Home,
        Menu::Recent => Load::Recent,
        Menu::Channels => Load::Channels,
        Menu::ChannelVideos => Load::ChannelVideos(row(selected) as usize),
        Menu::History => Load::History,
        Menu::WatchList => Load::WatchList,
    }
}

/// A key that picks one of the first five videos of a channel, and the
/// position it picks.
pub open spec fn digit_pick(c: char) -> Option<nat> {
    if c == '1' {
        Some(0)
    } else if c == '2' {
        Some(1)
    } else if c == '3' {
        Some(2)
    } else if c == '4' {
        Some(3)
    } else if c == '5' {
        Some(4)
    } else {
        None
    }
}

/// Each tab loads its own list: the History tab, and only it, loads the
/// history; the watch-later tab, and only it, the watch-later list; and so
/// for the start feed, the subscription feed and the channels; the
/// channel-videos tab loads the videos of the selected channel.
pub proof fn lemma_each_tab_loads_its_own(m: Menu, selected: Option<usize>)
    ensures
        (load_of(m, selected) == Load::Home) <==> m == Menu::Home,
        (load_of(m, selected) == Load::Recent) <==> m == Menu::Recent,
        (load_of(m, selected) == Load::Channels) <==> m == Menu::Channels,
        (load_of(m, selected) == Load::History) <==> m == Menu::History,
        (load_of(m, selected) == Load::WatchList) <==> m == Menu::WatchList,
        (load_of(m, selected) is ChannelVideos) <==> m == Menu::ChannelVideos,
        load_of(m, selected) is ChannelVideos ==> load_of(m, selected)->0 as nat == row(selected),
{
}

/// On a channel, the digit keys `1` to `5` play the video at position
/// digit - 1 of the channel's stored videos (`1` the first), and every
/// other key that selects no tab and is not `y` only loads them.
pub proof fn lemma_digit_keys(chans: Vec<YTChannel>, c: char, selected: Option<usize>)
    requires
        spec_get(c) is None,
        c != 'y',
    ensures
        char_action(Contents::Chan(chans), c, selected) == (ActionView::ChannelVideos {
            channel: row(selected),
            play: if '1' <= c && c <= '5' { Some((c as int - '1' as int) as nat) } else { None },
        }),
        char_action(Contents::Chan(chans), '1', selected) == (ActionView::ChannelVideos { channel: row(selected), play: Some(0) }),
        char_action(Contents::Chan(chans), '5', selected) == (ActionView::ChannelVideos { channel: row(selected), play: Some(4) }),
{
}

/// Keys act on a row that exists: where the content holds videos, the keys
/// that act on a video (enter, `y`, `w`, `W`) need the row to hold one;
/// where it holds channels, every key that selects no tab needs the row to
/// hold a channel.
pub open spec fn char_row_ok(c: Contents, ch: char, selected: Option<usize>) -> bool {
    spec_get(ch) is None ==> match c {
        Contents::Vid(v) => (ch == 'y' || ch == 'w' || ch == 'W') ==> row(selected) < v@.len(),
        Contents::Chan(cs) => row(selected) < cs@.len(),
    }
}

/// The action that `on_char` asks for.
pub open spec fn char_action(c: Contents, ch: char, selected: Option<usize>) -> ActionView {
    if spec_get(ch) is Some {
        ActionView::Refresh
    } else {
        let i = row(selected) as int;
        match c {
            Contents::Vid(v) => {
                let x = v@[i];
                if ch == 'y' {
                    ActionView::OpenInBrowser(watch_url(x.id@))
                } else if ch == 'w' {
                    ActionView::SaveWatch { title: x.title@, id: x.id@, chan: x.channel@ }
                } else if ch == 'W' {
                    ActionView::SaveWatchAndDownload {
                        title: x.title@,
                        id: x.id@,
                        chan: x.channel@,
                        url: watch_url(x.id@),
                    }
                } else {
                    ActionView::Nothing
                }
            },
            Contents::Chan(cs) => {
                if ch == 'y' {
                    ActionView::OpenInBrowser("https://www.youtube.com/channel/"@ + cs@[i].id@)
                } else {
                    ActionView::ChannelVideos { channel: row(selected), play: digit_pick(ch) }
                }
            },
        }
    }
}

/// Whether a character key acts on a row that exists (see `char_row_ok`).
pub fn char_row_ok_exec(c: &Contents, ch: char, selected: Option<usize>) -> (r: bool)
    ensures
        r == char_row_ok(*c, ch, selected),
{
    if Menu::get(ch).is_some() {
        return true;
    }
    let i = match selected {
        Some(i) => i,
        None => 0,
    };
    match c {
        Contents::Vid(v) => !(ch == 'y' || ch == 'w' || ch == 'W') || i < v.len(),
        Contents::Chan(cs) => i < cs.len(),
    }
}

/// The row selected after moving down a list of `len` rows: the next row,
/// wrapping from the last to the first; the first when none was selected;
/// unchanged when the list is empty.
pub open spec fn spec_next_row(selected: Option<usize>, len: usize) -> Option<usize> {
    if len == 0 {
        selected
    } else {
        match selected {
            Some(i) => if i + 1 < len { Some((i + 1) as usize) } else { Some(0) },
            None => Some(0),
        }
    }
}

/// The row selected after moving up a list of `len` rows: the previous
/// row, wrapping from the first to the last; the first when none was
/// selected; unchanged when the list is empty.
pub open spec fn spec_previous_row(selected: Option<usize>, len: usize) -> Option<usize> {
    if len == 0 {
        selected
    } else {
        match selected {
            Some(i) => if i == 0 { Some((len - 1) as usize) } else { Some((i - 1) as usize) },
            None => Some(0),
        }
    }
}

/// The row selected after moving down.
pub fn next_row(selected: Option<usize>, len: usize) -> (r: Option<usize>)
    ensures
        r == spec_next_row(selected, len),
{
    if len == 0 {
        return selected;
    }
    match selected {
        Some(i) => if i < len - 1 { Some(i + 1) } else { Some(0) },
        None => Some(0),
    }
}

/// The row selected after moving up.
pub fn previous_row(selected: Option<usize>, len: usize) -> (r: Option<usize>)
    ensures
        r == spec_previous_row(selected, len),
{
    if len == 0 {
        return selected;
    }
    match selected {
        Some(i) => if i == 0 { Some(len - 1) } else { Some(i - 1) },
        None => Some(0),
    }
}

/// Moving down and then up comes back to a selected row of a non-empty
/// list, and moving down from a selected row always selects a row.
pub proof fn lemma_rows_inverse(i: usize, len: usize)
    requires
        i < len,
    ensures
        spec_previous_row(spec_next_row(Some(i), len), len) == Some(i),
        spec_next_row(spec_previous_row(Some(i), len), len) == Some(i),
        spec_next_row(Some(i), len)->0 < len,
        spec_previous_row(Some(i), len)->0 < len,
{
}

/// The titles of the menu bar.
pub fn menu_titles() -> (r: Vec<&'static str>)
    ensures
        r@.map_values(|s: &str| s@) == seq!["Home"@, "Recent"@, "Channels"@, "History"@, "Watch Later"@],
{
    let r = vec!["Home", "Recent", "Channels", "History", "Watch Later"];
    assert(r@.map_values(|s: &str| s@) =~= seq!["Home"@, "Recent"@, "Channels"@, "History"@, "Watch Later"@]);
    r
}

/// The titles of what the content lists: the titles of the videos or the
/// names of the channels.
pub fn content_titles(content: &Contents) -> (r: Vec<String>)
    ensures
        r@.len() == content_len(*content),
        forall|i: int| 0 <= i < r@.len() ==> (#[trigger] r@[i])@ == match content {
            Contents::Vid(v) => v@[i].title@,
            Contents::Chan(c) => c@[i].name@,
        },
{
    let mut r: Vec<String> = Vec::new();
    match content {
        Contents::Vid(v) => {
            let mut i: usize = 0;
            while i < v.len()
                invariant
                    i <= v@.len(),
                    r@.len() == i,
                    forall|k: int| 0 <= k < i ==> (#[trigger] r@[k])@ == v@[k].title@,
                decreases v.len() - i,
            {
                r.push(v[i].title.clone());
                i = i + 1;
            }
        },
        Contents::Chan(c) => {
            let mut i: usize = 0;
            while i < c.len()
                invariant
                    i <= c@.len(),
                    r@.len() == i,
                    forall|k: int| 0 <= k < i ==> (#[trigger] r@[k])@ == c@[k].name@,
                decreases c.len() - i,
            {
                r.push(c[i].name.clone());
                i = i + 1;
            }
        },
    }
    r
}

/// The action that playing the video at position `k` of a channel's stored
/// videos asks for: the history records the channel's id as its channel.
pub fn play_from_channel(vids: &Vec<Video>, k: usize) -> (r: Action)
    requires
        k < vids@.len(),
    ensures
        r@ == (ActionView::Play {
            title: vids@[k as int].title@,
            id: vids@[k as int].id@,
            chan: vids@[k as int].channel_url@,
            video: vids@[k as int]@,
        }),
{
    let v = &vids[k];
    Action::Play { title: v.title.clone(), id: v.id.clone(), chan: v.channel_url.clone(), video: v.clone() }
}

impl App {
    /// An interface that lists the given content on the start tab.
    pub fn new(content: Contents) -> (r: App)
        ensures
            r.content == content,
            r.menu_active == Menu::Home,
            r.menu_titles@.map_values(|s: &str| s@) == seq!["Home"@, "Recent"@, "Channels"@, "History"@, "Watch Later"@],
    {
        App { content, menu_titles: menu_titles(), menu_active: Menu::Home }
    }

    /// An interface on the given tab that lists nothing yet.
    pub fn new_from_menu(m: Menu) -> (r: App)
        ensures
            r.content is Vid,
            content_len(r.content) == 0,
            r.menu_active == m,
            r.menu_titles@.map_values(|s: &str| s@) == seq!["Home"@, "Recent"@, "Channels"@, "History"@, "Watch Later"@],
    {
        App { content: Contents::Vid(Vec::new()), menu_titles: menu_titles(), menu_active: m }
    }

    /// What the active tab shows, to be loaded; the channel-videos tab
    /// shows the videos of the selected channel.
    pub fn refresh(&self, selected: Option<usize>) -> (r: Load)
        requires
            self.menu_active == Menu::ChannelVideos ==> self.content is Chan && row(selected) < content_len(self.content),
        ensures
            r == load_of(self.menu_active, selected),
            (r == Load::Home) <==> self.menu_active == Menu::Home,
            (r == Load::Recent) <==> self.menu_active == Menu::Recent,
            (r == Load::Channels) <==> self.menu_active == Menu::Channels,
            (r == Load::History) <==> self.menu_active == Menu::History,
            (r == Load::WatchList) <==> self.menu_active == Menu::WatchList,
            (r is ChannelVideos) <==> self.menu_active == Menu::ChannelVideos,
            r is ChannelVideos ==> r->0 as nat == row(selected),
    {
        match self.menu_active {
            Menu::Home => Load::Home,
            Menu::Recent => Load::Recent,
            Menu::Channels => Load::Channels,
            Menu::ChannelVideos => Load::ChannelVideos(
                match selected {
                    Some(i) => i,
                    None => 0,
                },
            ),
            Menu::History => Load::History,
            Menu::WatchList => Load::WatchList,
        }
    }

    /// Lists what was loaded, and returns the titles to show for it.
    pub fn set_content(&mut self, content: Contents) -> (r: Vec<String>)
        ensures
            final(self).content == content,
            final(self).menu_active == old(self).menu_active,
            final(self).menu_titles == old(self).menu_titles,
            r@.len() == content_len(content),
            forall|i: int| 0 <= i < r@.len() ==> (#[trigger] r@[i])@ == match content {
                Contents::Vid(v) => v@[i].title@,
                Contents::Chan(c) => c@[i].name@,
            },
    {
        let titles = content_titles(&content);
        self.content = content;
        titles
    }

    /// The tab key: the next tab becomes active and is loaded.
    pub fn on_tab(&mut self) -> (r: Action)
        ensures
            final(self).menu_active == spec_next(old(self).menu_active),
            final(self).content == old(self).content,
            r@ == ActionView::Refresh,
    {
        self.menu_active = self.menu_active.next();
        Action::Refresh
    }

    /// The enter key: a video is recorded in the history and played; a
    /// channel opens the tab of its videos.
    pub fn on_enter(&mut self, selected: Option<usize>) -> (r: Action)
        requires
            old(self).content is Vid ==> row(selected) < content_len(old(self).content),
        ensures
            final(self).content == old(self).content,
            match old(self).content {
                Contents::Vid(x) => {
                    let v = x@[row(selected) as int];
                    &&& final(self).menu_active == old(self).menu_active
                    &&& r@ == (ActionView::Play { title: v.title@, id: v.id@, chan: v.channel@, video: v@ })
                },
                Contents::Chan(_) => {
                    &&& final(self).menu_active == Menu::ChannelVideos
                    &&& r@ == ActionView::Refresh
                },
            },
    {
        let idx = match selected {
            Some(i) => i,
            None => 0,
        };
        match &self.content {
            Contents::Vid(x) => {
                let v = &x[idx];
                Action::Play { title: v.title.clone(), id: v.id.clone(), chan: v.channel.clone(), video: v.clone() }
            },
            Contents::Chan(_) => {
                self.menu_active = Menu::ChannelVideos;
                Action::Refresh
            },
        }
    }

    /// A character key: a tab key makes its tab active and loads it; on a
    /// video, `y` opens its page, `w` adds it to the watch-later list and
    /// `W` does so and downloads it; on a channel, `y` opens its page, and
    /// any other key loads its stored videos, playing the first to fifth for
    /// the keys `1` to `5`.
    pub fn on_char(&mut self, c: char, selected: Option<usize>) -> (r: Action)
        requires
            char_row_ok(old(self).content, c, selected),
        ensures
            final(self).content == old(self).content,
            final(self).menu_active == match spec_get(c) {
                Some(m) => m,
                None => old(self).menu_active,
            },
            r@ == char_action(old(self).content, c, selected),
            old(self).content is Chan && spec_get(c) is None && c != 'y' ==> r@ == (ActionView::ChannelVideos {
                channel: row(selected),
                play: if '1' <= c && c <= '5' { Some((c as int - '1' as int) as nat) } else { None },
            }),
    {
        if let Some(m) = Menu::get(c) {
            self.menu_active = m;
            return Action::Refresh;
        }
        let idx = match selected {
            Some(i) => i,
            None => 0,
        };
        match &self.content {
            Contents::Vid(vids) => {
                if c == 'y' {
                    return Action::OpenInBrowser(vids[idx].clone().get_url());
                }
                if c == 'w' {
                    let v = &vids[idx];
                    return Action::SaveWatch { title: v.title.clone(), id: v.id.clone(), chan: v.channel.clone() };
                }
                if c == 'W' {
                    let v = &vids[idx];
                    return Action::SaveWatchAndDownload {
                        title: v.title.clone(),
                        id: v.id.clone(),
                        chan: v.channel.clone(),
                        url: v.clone().get_url(),
                    };
                }
                Action::Nothing
            },
            Contents::Chan(chans) => {
                if c == 'y' {
                    return Action::OpenInBrowser(
                        String::from_str("https://www.youtube.com/channel/").concat(chans[idx].id.as_str()),
                    );
                }
                let play = match c {
                    '1' => Some(0),
                    '2' => Some(1),
                    '3' => Some(2),
                    '4' => Some(3),
                    '5' => Some(4),
                    _ => None,
                };
                Action::ChannelVideos { channel: idx, play }
            },
        }
    }
}


/// Which image to show for a video's thumbnail.
pub enum ImageChoice {
    /// Nothing to show.
    Nothing,
    /// Show the stored thumbnail at this path.
    Show(String),
    /// Show the image at `show` while the thumbnail at `url` is downloaded
    /// into the file `file`.
    Fetch { file: String, url: String, show: String },
}

/// An image choice, in text.
pub enum ImageChoiceView {
    Nothing,
    Show(Seq<char>),
    Fetch { file: Seq<char>, url: Seq<char>, show: Seq<char> },
}

impl View for ImageChoice {
    type V = ImageChoiceView;

    open spec fn view(&self) -> ImageChoiceView {
        match self {
            ImageChoice::Nothing => ImageChoiceView::Nothing,
            ImageChoice::Show(p) => ImageChoiceView::Show(p@),
            ImageChoice::Fetch { file, url, show } => ImageChoiceView::Fetch { file: file@, url: url@, show: show@ },
        }
    }
}

/// The image for a thumbnail: the stored file, or the loading image while
/// the thumbnail is downloaded into that file.
pub open spec fn thumb_choice(v: VideoView, cache: Seq<char>, perma: Seq<char>, stored: bool) -> ImageChoiceView {
    if stored {
        ImageChoiceView::Show(thumb_path(cache, v.id))
    } else {
        ImageChoiceView::Fetch { file: thumb_path(cache, v.id), url: v.thumb_url, show: loading_path(perma) }
    }
}

/// The file that holds a video's thumbnail in the cache.
pub open spec fn thumb_path(cache: Seq<char>, id: Seq<char>) -> Seq<char> {
    cache + "/"@ + id + ".jpg"@
}

/// The image shown while a thumbnail is downloaded.
pub open spec fn loading_path(perma: Seq<char>) -> Seq<char> {
    perma + "/loadingPath.png"@
}

/// The file that holds a video's thumbnail in the cache.
pub fn thumb_file(cache: &str, vid: &Video) -> (r: String)
    ensures
        r@ == thumb_path(cache@, vid.id@),
{
    String::from_str(cache).concat("/").concat(vid.id.as_str()).concat(".jpg")
}

/// The image for a video's thumbnail, given whether its file is stored:
/// the file when it is, and otherwise the loading image while the
/// thumbnail is downloaded into that file.
pub fn thumb_from_video(vid: &Video, cache: &str, perma: &str, stored: bool) -> (r: ImageChoice)
    ensures
        r@ == thumb_choice(vid@, cache@, perma@, stored),
{
    let file = thumb_file(cache, vid);
    if stored {
        ImageChoice::Show(file)
    } else {
        ImageChoice::Fetch {
            file,
            url: vid.thumb_url.clone(),
            show: String::from_str(perma).concat("/loadingPath.png"),
        }
    }
}

/// Whether a thumbnail is to be downloaded into `file` from `url`: not when
/// the file exists and the download is not forced, and not when either is
/// empty.
pub fn should_download_thumb(file: &str, url: &str, exists: bool, force: bool) -> (r: bool)
    ensures
        r == (!(exists && !force) && file@.len() != 0 && url@.len() != 0),
{
    if exists && !force {
        return false;
    }
    !(file.is_empty() || url.is_empty())
}

/// The title, view count, time of posting and channel of a video, one per
/// line.
pub open spec fn desc_text(v: VideoView) -> Seq<char> {
    "Title: "@ + v.title + "\nView Count: "@ + v.view_count + "\nPosted Time: "@ + v.posted_time + "\nChannel: "@
        + v.channel
}

/// The description of a video shown beside its thumbnail.
pub fn video_desc(v: &Video) -> (r: String)
    ensures
        r@ == desc_text(v@),
{
    String::from_str("Title: ")
        .concat(v.title.as_str())
        .concat("\nView Count: ")
        .concat(v.view_count.as_str())
        .concat("\nPosted Time: ")
        .concat(v.posted_time.as_str())
        .concat("\nChannel: ")
        .concat(v.channel.as_str())
}

impl App {
    /// The image for the thumbnail of the video at row `x`, given whether
    /// its file is stored; nothing when the content is not videos.
    pub fn return_img_path(&self, x: usize, cache: &str, perma: &str, stored: bool) -> (r: ImageChoice)
        requires
            self.content is Vid ==> x < content_len(self.content),
        ensures
            r@ == match self.content {
                Contents::Vid(v) => thumb_choice(v@[x as int]@, cache@, perma@, stored),
                Contents::Chan(_) => ImageChoiceView::Nothing,
            },
    {
        match &self.content {
            Contents::Vid(videos) => thumb_from_video(&videos[x], cache, perma, stored),
            Contents::Chan(_) => ImageChoice::Nothing,
        }
    }

    /// The rows whose thumbnails are fetched ahead while row `x` is shown:
    /// the next two, as far as there are videos.
    pub fn prefetch_rows(&self, x: usize) -> (r: Vec<usize>)
        ensures
            r@ == match self.content {
                Contents::Vid(v) => if x + 2 < v@.len() {
                    seq![(x + 1) as usize, (x + 2) as usize]
                } else if x + 1 < v@.len() {
                    seq![(x + 1) as usize]
                } else {
                    Seq::<usize>::empty()
                },
                Contents::Chan(_) => Seq::<usize>::empty(),
            },
    {
        let mut r: Vec<usize> = Vec::new();
        if let Contents::Vid(videos) = &self.content {
            if x < videos.len() && x + 1 < videos.len() {
                r.push(x + 1);
            }
            if x < videos.len() && x + 1 < videos.len() && x + 2 < videos.len() {
                r.push(x + 2);
            }
        }
        assert(r@ =~= match self.content {
            Contents::Vid(v) => if x + 2 < v@.len() {
                seq![(x + 1) as usize, (x + 2) as usize]
            } else if x + 1 < v@.len() {
                seq![(x + 1) as usize]
            } else {
                Seq::<usize>::empty()
            },
            Contents::Chan(_) => Seq::<usize>::empty(),
        });
        r
    }
}

} // verus!
