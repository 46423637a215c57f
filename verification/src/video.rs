use vstd::prelude::*;

verus! {

/// A video as the interface lists it.
#[derive(Debug)]
pub struct Video {
    pub id: String,
    pub title: String,
    pub thumb_url: String,
    pub view_count: String,
    pub posted_time: String,
    pub channel: String,
    pub channel_url: String,
}

/// The text of each field of a video.
pub struct VideoView {
    pub id: Seq<char>,
    pub title: Seq<char>,
    pub thumb_url: Seq<char>,
    pub view_count: Seq<char>,
    pub posted_time: Seq<char>,
    pub channel: Seq<char>,
    pub channel_url: Seq<char>,
}

impl View for Video {
    type V = VideoView;

    open spec fn view(&self) -> VideoView {
        VideoView {
            id: self.id@,
            title: self.title@,
            thumb_url: self.thumb_url@,
            view_count: self.view_count@,
            posted_time: self.posted_time@,
            channel: self.channel@,
            channel_url: self.channel_url@,
        }
    }
}

/// A video known only by its title, id and channel, as the history and
/// watch-later files record it.
pub open spec fn light_view(title: Seq<char>, id: Seq<char>, chan: Seq<char>) -> VideoView {
    VideoView {
        id: id,
        title: title,
        thumb_url: Seq::empty(),
        view_count: Seq::empty(),
        posted_time: Seq::empty(),
        channel: chan,
        channel_url: Seq::empty(),
    }
}

/// The watch page of the video with the given id.
pub open spec fn watch_url(id: Seq<char>) -> Seq<char> {
    "https://www.youtube.com/watch?v="@ + id
}

/// The name of the file that holds a video's thumbnail.
pub open spec fn thumb_file(id: Seq<char>) -> Seq<char> {
    id + ".jpg"@
}

impl Video {
    pub fn new(
        id: String,
        title: String,
        thumb_url: String,
        view_count: String,
        posted_time: String,
        channel: String,
        channel_url: String,
    ) -> (v: Self)
        ensures
            v@ == (VideoView {
                id: id@,
                title: title@,
                thumb_url: thumb_url@,
                view_count: view_count@,
                posted_time: posted_time@,
                channel: channel@,
                channel_url: channel_url@,
            }),
    {
        Self { id, title, thumb_url, view_count, posted_time, channel, channel_url }
    }

    pub fn new_light(title: String, id: String, chan: String) -> (v: Self)
        ensures
            v@ == light_view(title@, id@, chan@),
    {
        Self {
            id: id,
            title: title,
            thumb_url: String::new(),
            view_count: String::new(),
            posted_time: String::new(),
            channel: chan,
            channel_url: String::new(),
        }
    }

    pub fn get_url(self) -> (r: String)
        ensures
            r@ == watch_url(self.id@),
    {
        String::from_str("https://www.youtube.com/watch?v=").concat(self.id.as_str())
    }

    /// The file name under which the thumbnail would be stored.
    pub fn thumb_file_name(&self) -> (r: String)
        ensures
            r@ == thumb_file(self.id@),
    {
        self.id.clone().concat(".jpg")
    }

    /// Where the thumbnail is to be read from, given whether its file exists.
    pub fn get_thumb_loc(self, thumb_exists: bool) -> (r: String)
        ensures
            thumb_exists ==> r@ == thumb_file(self.id@),
            !thumb_exists ==> r@ == "loadingPath.pg"@,
    {
        if thumb_exists {
            self.thumb_file_name()
        } else {
            String::from_str("loadingPath.pg")
        }
    }
}

impl Clone for Video {
    fn clone(&self) -> (r: Self)
        ensures
            r == *self,
    {
        Video {
            id: self.id.clone(),
            title: self.title.clone(),
            thumb_url: self.thumb_url.clone(),
            view_count: self.view_count.clone(),
            posted_time: self.posted_time.clone(),
            channel: self.channel.clone(),
            channel_url: self.channel_url.clone(),
        }
    }
}

/// A comment under a video.
#[derive(Debug)]
pub struct Comment {
    author: String,
    comment: String,
}

} // verus!
