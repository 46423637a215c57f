//! Reading videos and channels out of the JSON that YouTube serves: the
//! pages of a channel's uploads and of the user's subscriptions (from the
//! Data API), and the start and subscription feeds (from the data embedded
//! in the web pages).
use vstd::prelude::*;
use crate::json::{lemma_travel_concat, Json, Step, StepV, travel, text_at, str_at, num_at, path_view, text_along, str_along, num_along, array_along, travel_path, push_key, push_idx, empty_path, lemma_travel_null};
use crate::video::{Video, VideoView};

verus! {

/// The video that an item of a playlist page describes.
pub open spec fn playlist_video(item: Json) -> VideoView {
    VideoView {
        id: text_at(item, seq![StepV::Key("contentDetails"@), StepV::Key("videoId"@)]),
        title: text_at(item, seq![StepV::Key("snippet"@), StepV::Key("title"@)]),
        thumb_url: text_at(item, seq![StepV::Key("snippet"@), StepV::Key("thumbnails"@), StepV::Key("high"@), StepV::Key("url"@)]),
        view_count: Seq::empty(),
        posted_time: text_at(item, seq![StepV::Key("snippet"@), StepV::Key("publishedAt"@)]),
        channel: text_at(item, seq![StepV::Key("snippet"@), StepV::Key("channelTitle"@)]),
        channel_url: text_at(item, seq![StepV::Key("snippet"@), StepV::Key("channelId"@)]),
    }
}

fn text2(j: &Json, a: &str, b: &str) -> (r: String)
    ensures
        r@ == text_at(*j, seq![StepV::Key(a@), StepV::Key(b@)]),
{
    let mut p = empty_path();
    push_key(&mut p, a);
    push_key(&mut p, b);
    assert(path_view(p@) =~= seq![StepV::Key(a@), StepV::Key(b@)]);
    text_along(j, &p)
}

fn text4(j: &Json, a: &str, b: &str, c: &str, d: &str) -> (r: String)
    ensures
        r@ == text_at(*j, seq![StepV::Key(a@), StepV::Key(b@), StepV::Key(c@), StepV::Key(d@)]),
{
    let mut p = empty_path();
    push_key(&mut p, a);
    push_key(&mut p, b);
    push_key(&mut p, c);
    push_key(&mut p, d);
    assert(path_view(p@) =~= seq![StepV::Key(a@), StepV::Key(b@), StepV::Key(c@), StepV::Key(d@)]);
    text_along(j, &p)
}

/// The video that an item of a playlist page describes.
pub fn playlist_item_video(item: &Json) -> (v: Video)
    ensures
        v@ == playlist_video(*item),
{
    Video::new(
        text2(item, "contentDetails", "videoId"),
        text2(item, "snippet", "title"),
        text4(item, "snippet", "thumbnails", "high", "url"),
        String::new(),
        text2(item, "snippet", "publishedAt"),
        text2(item, "snippet", "channelTitle"),
        text2(item, "snippet", "channelId"),
    )
}


/// The items of a page of the Data API, when they form an array.
pub open spec fn page_items(page: Json) -> Seq<Json> {
    match travel(page, seq![StepV::Key("items"@)]) {
        Json::Array(a) => a@,
        _ => Seq::empty(),
    }
}

/// The items of a page form an array.
pub open spec fn has_items(page: Json) -> bool {
    travel(page, seq![StepV::Key("items"@)]) is Array
}

fn items_path() -> (p: Vec<Step>)
    ensures
        path_view(p@) == seq![StepV::Key("items"@)],
{
    let mut p = empty_path();
    push_key(&mut p, "items");
    assert(path_view(p@) =~= seq![StepV::Key("items"@)]);
    p
}

/// Whether the items of a page form an array.
pub fn page_has_items(page: &Json) -> (r: bool)
    ensures
        r == has_items(*page),
{
    array_along(page, &items_path()).is_some()
}

/// The videos that the items of a playlist page describe, in order.
pub fn playlist_videos(page: &Json) -> (r: Vec<Video>)
    requires
        has_items(*page),
    ensures
        r@.len() == page_items(*page).len(),
        forall|i: int| 0 <= i < r@.len() ==> (#[trigger] r@[i])@ == playlist_video(page_items(*page)[i]),
{
    let items = array_along(page, &items_path()).unwrap();
    let mut r: Vec<Video> = Vec::new();
    let mut i: usize = 0;
    while i < items.len()
        invariant
            i <= items.len(),
            items@ == page_items(*page),
            r@.len() == i,
            forall|k: int| 0 <= k < i ==> (#[trigger] r@[k])@ == playlist_video(items@[k]),
        decreases items.len() - i,
    {
        r.push(playlist_item_video(&items[i]));
        i = i + 1;
    }
    r
}

/// The token of the next page, if the page names one.
pub open spec fn next_token(page: Json) -> Option<Seq<char>> {
    str_at(page, seq![StepV::Key("nextPageToken"@)])
}

/// The token of the page that follows `page`, if it names one.
pub fn next_page_token(page: &Json) -> (r: Option<String>)
    ensures
        match r {
            Some(t) => next_token(*page) == Some(t@),
            None => next_token(*page) is None,
        },
{
    let mut p = empty_path();
    push_key(&mut p, "nextPageToken");
    assert(path_view(p@) =~= seq![StepV::Key("nextPageToken"@)]);
    str_along(page, &p)
}

/// One step of gathering all uploads of a channel page by page: the videos
/// of `page` are added to those gathered so far, and the token of the page
/// to fetch next is returned; `None` ends the gathering.
pub fn upload_page_step(vids: &mut Vec<Video>, page: &Json) -> (r: Option<String>)
    requires
        has_items(*page),
    ensures
        final(vids)@.len() == old(vids)@.len() + page_items(*page).len(),
        forall|i: int| 0 <= i < old(vids)@.len() ==> #[trigger] final(vids)@[i] == old(vids)@[i],
        forall|i: int| 0 <= i < page_items(*page).len()
            ==> (#[trigger] final(vids)@[old(vids)@.len() + i])@ == playlist_video(page_items(*page)[i]),
        match r {
            Some(t) => next_token(*page) == Some(t@),
            None => next_token(*page) is None,
        },
{
    let mut more = playlist_videos(page);
    let ghost before = vids@;
    let ghost got = more@;
    vids.append(&mut more);
    assert(vids@ =~= before + got);
    assert forall|i: int| 0 <= i < page_items(*page).len()
        implies (#[trigger] vids@[before.len() + i])@ == playlist_video(page_items(*page)[i]) by {
        assert(vids@[before.len() + i] == got[i]);
    }
    next_page_token(page)
}


/// The video that a renderer of the web pages describes; the feeds differ
/// in which thumbnail they show and in which byline names the channel.
pub open spec fn renderer_video(r: Json, thumb: nat, byline: Seq<char>) -> VideoView {
    VideoView {
        id: text_at(r, seq![StepV::Key("videoId"@)]),
        title: text_at(r, seq![StepV::Key("title"@), StepV::Key("runs"@), StepV::Idx(0), StepV::Key("text"@)]),
        thumb_url: text_at(r, seq![StepV::Key("thumbnail"@), StepV::Key("thumbnails"@), StepV::Idx(thumb), StepV::Key("url"@)]),
        view_count: text_at(r, seq![StepV::Key("viewCountText"@), StepV::Key("simpleText"@)]),
        posted_time: text_at(r, seq![StepV::Key("publishedTimeText"@), StepV::Key("simpleText"@)]),
        channel: text_at(r, seq![StepV::Key(byline), StepV::Key("runs"@), StepV::Idx(0), StepV::Key("text"@)]),
        channel_url: text_at(r, seq![
            StepV::Key(byline),
            StepV::Key("runs"@),
            StepV::Idx(0),
            StepV::Key("navigationEndpoint"@),
            StepV::Key("browseEndpoint"@),
            StepV::Key("canonicalBaseUrl"@),
        ]),
    }
}

fn renderer_video_of(r: &Json, thumb: usize, byline: &str) -> (v: Video)
    ensures
        v@ == renderer_video(*r, thumb as nat, byline@),
{
    let mut p1 = empty_path();
    push_key(&mut p1, "videoId");
    assert(path_view(p1@) =~= seq![StepV::Key("videoId"@)]);
    let mut p2 = empty_path();
    push_key(&mut p2, "title");
    push_key(&mut p2, "runs");
    push_idx(&mut p2, 0);
    push_key(&mut p2, "text");
    assert(path_view(p2@) =~= seq![StepV::Key("title"@), StepV::Key("runs"@), StepV::Idx(0), StepV::Key("text"@)]);
    let mut p3 = empty_path();
    push_key(&mut p3, "thumbnail");
    push_key(&mut p3, "thumbnails");
    push_idx(&mut p3, thumb);
    push_key(&mut p3, "url");
    assert(path_view(p3@) =~= seq![StepV::Key("thumbnail"@), StepV::Key("thumbnails"@), StepV::Idx(thumb as nat), StepV::Key("url"@)]);
    let mut p4 = empty_path();
    push_key(&mut p4, "viewCountText");
    push_key(&mut p4, "simpleText");
    assert(path_view(p4@) =~= seq![StepV::Key("viewCountText"@), StepV::Key("simpleText"@)]);
    let mut p5 = empty_path();
    push_key(&mut p5, "publishedTimeText");
    push_key(&mut p5, "simpleText");
    assert(path_view(p5@) =~= seq![StepV::Key("publishedTimeText"@), StepV::Key("simpleText"@)]);
    let mut p6 = empty_path();
    push_key(&mut p6, byline);
    push_key(&mut p6, "runs");
    push_idx(&mut p6, 0);
    push_key(&mut p6, "text");
    assert(path_view(p6@) =~= seq![StepV::Key(byline@), StepV::Key("runs"@), StepV::Idx(0), StepV::Key("text"@)]);
    let mut p7 = empty_path();
    push_key(&mut p7, byline);
    push_key(&mut p7, "runs");
    push_idx(&mut p7, 0);
    push_key(&mut p7, "navigationEndpoint");
    push_key(&mut p7, "browseEndpoint");
    push_key(&mut p7, "canonicalBaseUrl");
    assert(path_view(p7@) =~= seq![
        StepV::Key(byline@),
        StepV::Key("runs"@),
        StepV::Idx(0),
        StepV::Key("navigationEndpoint"@),
        StepV::Key("browseEndpoint"@),
        StepV::Key("canonicalBaseUrl"@),
    ]);
    Video::new(
        text_along(r, &p1),
        text_along(r, &p2),
        text_along(r, &p3),
        text_along(r, &p4),
        text_along(r, &p5),
        text_along(r, &p6),
        text_along(r, &p7),
    )
}

/// Reading a video's fields below a renderer reached along `prefix` reads
/// each along the whole path from the item, as `vid["prefix"]..["field"]`.
pub proof fn lemma_renderer_paths(item: Json, prefix: Seq<StepV>, thumb: nat, byline: Seq<char>)
    ensures
        ({
            let v = renderer_video(travel(item, prefix), thumb, byline);
            &&& v.id == text_at(item, prefix + seq![StepV::Key("videoId"@)])
            &&& v.title == text_at(item, prefix + seq![StepV::Key("title"@), StepV::Key("runs"@), StepV::Idx(0), StepV::Key("text"@)])
            &&& v.thumb_url == text_at(item, prefix + seq![StepV::Key("thumbnail"@), StepV::Key("thumbnails"@), StepV::Idx(thumb), StepV::Key("url"@)])
            &&& v.view_count == text_at(item, prefix + seq![StepV::Key("viewCountText"@), StepV::Key("simpleText"@)])
            &&& v.posted_time == text_at(item, prefix + seq![StepV::Key("publishedTimeText"@), StepV::Key("simpleText"@)])
            &&& v.channel == text_at(item, prefix + seq![StepV::Key(byline), StepV::Key("runs"@), StepV::Idx(0), StepV::Key("text"@)])
            &&& v.channel_url == text_at(item, prefix + seq![
                StepV::Key(byline),
                StepV::Key("runs"@),
                StepV::Idx(0),
                StepV::Key("navigationEndpoint"@),
                StepV::Key("browseEndpoint"@),
                StepV::Key("canonicalBaseUrl"@),
            ])
        }),
{
    lemma_travel_concat(item, prefix, seq![StepV::Key("videoId"@)]);
    lemma_travel_concat(item, prefix, seq![StepV::Key("title"@), StepV::Key("runs"@), StepV::Idx(0), StepV::Key("text"@)]);
    lemma_travel_concat(item, prefix, seq![StepV::Key("thumbnail"@), StepV::Key("thumbnails"@), StepV::Idx(thumb), StepV::Key("url"@)]);
    lemma_travel_concat(item, prefix, seq![StepV::Key("viewCountText"@), StepV::Key("simpleText"@)]);
    lemma_travel_concat(item, prefix, seq![StepV::Key("publishedTimeText"@), StepV::Key("simpleText"@)]);
    lemma_travel_concat(item, prefix, seq![StepV::Key(byline), StepV::Key("runs"@), StepV::Idx(0), StepV::Key("text"@)]);
    lemma_travel_concat(item, prefix, seq![
        StepV::Key(byline),
        StepV::Key("runs"@),
        StepV::Idx(0),
        StepV::Key("navigationEndpoint"@),
        StepV::Key("browseEndpoint"@),
        StepV::Key("canonicalBaseUrl"@),
    ]);
}

/// The renderer inside an item of the start feed.
pub open spec fn home_renderer(item: Json) -> Json {
    travel(item, seq![StepV::Key("richItemRenderer"@), StepV::Key("content"@), StepV::Key("videoRenderer"@)])
}

/// The video that an item of the start feed describes.
pub open spec fn home_video(item: Json) -> VideoView {
    renderer_video(home_renderer(item), 1, "longBylineText"@)
}

/// The video that an item of the subscription feed describes.
pub open spec fn grid_video(item: Json) -> VideoView {
    renderer_video(travel(item, seq![StepV::Key("gridVideoRenderer"@)]), 2, "shortBylineText"@)
}

/// The video read from a renderer reached along `path`, null when absent.
fn video_below(item: &Json, path: &Vec<Step>, thumb: usize, byline: &str) -> (v: Video)
    ensures
        v@ == renderer_video(travel(*item, path_view(path@)), thumb as nat, byline@),
{
    match travel_path(item, path) {
        Some(r) => renderer_video_of(r, thumb, byline),
        None => {
            let null = Json::Null;
            proof {
                lemma_travel_null(seq![StepV::Key("videoId"@)]);
                lemma_travel_null(seq![StepV::Key("title"@), StepV::Key("runs"@), StepV::Idx(0), StepV::Key("text"@)]);
                lemma_travel_null(seq![StepV::Key("thumbnail"@), StepV::Key("thumbnails"@), StepV::Idx(thumb as nat), StepV::Key("url"@)]);
                lemma_travel_null(seq![StepV::Key("viewCountText"@), StepV::Key("simpleText"@)]);
                lemma_travel_null(seq![StepV::Key("publishedTimeText"@), StepV::Key("simpleText"@)]);
            }
            renderer_video_of(&null, thumb, byline)
        },
    }
}

/// The videos of `s` that have an id, in order.
pub open spec fn with_id(s: Seq<VideoView>) -> Seq<VideoView>
    decreases s.len(),
{
    if s.len() == 0 {
        Seq::empty()
    } else if s.last().id == Seq::<char>::empty() {
        with_id(s.drop_last())
    } else {
        with_id(s.drop_last()).push(s.last())
    }
}

/// The path to the list of the start feed in the page's data.
pub open spec fn home_list_path() -> Seq<StepV> {
    seq![
        StepV::Key("contents"@),
        StepV::Key("twoColumnBrowseResultsRenderer"@),
        StepV::Key("tabs"@),
        StepV::Idx(0),
        StepV::Key("tabRenderer"@),
        StepV::Key("content"@),
        StepV::Key("richGridRenderer"@),
        StepV::Key("contents"@),
    ]
}

/// The items of the start feed, when they form an array.
pub open spec fn home_items(data: Json) -> Seq<Json> {
    match travel(data, home_list_path()) {
        Json::Array(a) => a@,
        _ => Seq::empty(),
    }
}

fn home_list_path_exec() -> (p: Vec<Step>)
    ensures
        path_view(p@) == home_list_path(),
{
    let mut p = empty_path();
    push_key(&mut p, "contents");
    push_key(&mut p, "twoColumnBrowseResultsRenderer");
    push_key(&mut p, "tabs");
    push_idx(&mut p, 0);
    push_key(&mut p, "tabRenderer");
    push_key(&mut p, "content");
    push_key(&mut p, "richGridRenderer");
    push_key(&mut p, "contents");
    assert(path_view(p@) =~= home_list_path());
    p
}

fn home_renderer_path() -> (p: Vec<Step>)
    ensures
        path_view(p@) == seq![StepV::Key("richItemRenderer"@), StepV::Key("content"@), StepV::Key("videoRenderer"@)],
{
    let mut p = empty_path();
    push_key(&mut p, "richItemRenderer");
    push_key(&mut p, "content");
    push_key(&mut p, "videoRenderer");
    assert(path_view(p@) =~= seq![StepV::Key("richItemRenderer"@), StepV::Key("content"@), StepV::Key("videoRenderer"@)]);
    p
}

/// Whether the start feed's items form an array in the page's data.
pub fn has_home_list(data: &Json) -> (r: bool)
    ensures
        r == travel(*data, home_list_path()) is Array,
{
    array_along(data, &home_list_path_exec()).is_some()
}

/// The videos of the start feed, in order, leaving out the items that name
/// no video id.
pub fn home_videos(data: &Json) -> (r: Vec<Video>)
    requires
        travel(*data, home_list_path()) is Array,
    ensures
        r@.map_values(|v: Video| v@) == with_id(home_items(*data).map_values(|j: Json| home_video(j))),
{
    let items = array_along(data, &home_list_path_exec()).unwrap();
    let rp = home_renderer_path();
    let ghost all = items@.map_values(|j: Json| home_video(j));
    let mut r: Vec<Video> = Vec::new();
    let mut i: usize = 0;
    while i < items.len()
        invariant
            i <= items.len(),
            items@ == home_items(*data),
            all == items@.map_values(|j: Json| home_video(j)),
            path_view(rp@) == seq![StepV::Key("richItemRenderer"@), StepV::Key("content"@), StepV::Key("videoRenderer"@)],
            r@.map_values(|v: Video| v@) == with_id(all.take(i as int)),
        decreases items.len() - i,
    {
        let v = video_below(&items[i], &rp, 1, "longBylineText");
        proof {
            assert(all.take(i + 1).drop_last() =~= all.take(i as int));
            assert(all.take(i + 1).last() == v@);
        }
        let ghost before = r@;
        if v.id.as_str().is_empty() {
            assert(v@.id =~= Seq::<char>::empty());
        } else {
            assert(v@.id != Seq::<char>::empty());
            r.push(v);
            assert(r@.map_values(|v: Video| v@) =~= before.map_values(|v: Video| v@).push(r@.last()@));
        }
        i = i + 1;
    }
    assert(all.take(items.len() as int) =~= all);
    r
}


/// The path to the list of days of the subscription feed.
pub open spec fn days_path() -> Seq<StepV> {
    seq![
        StepV::Key("contents"@),
        StepV::Key("twoColumnBrowseResultsRenderer"@),
        StepV::Key("tabs"@),
        StepV::Idx(0),
        StepV::Key("tabRenderer"@),
        StepV::Key("content"@),
        StepV::Key("sectionListRenderer"@),
        StepV::Key("contents"@),
    ]
}

/// The path from the list of days to the videos of day `d`.
pub open spec fn day_path(d: nat) -> Seq<StepV> {
    seq![
        StepV::Idx(d),
        StepV::Key("itemSectionRenderer"@),
        StepV::Key("contents"@),
        StepV::Idx(0),
        StepV::Key("shelfRenderer"@),
        StepV::Key("content"@),
        StepV::Key("gridRenderer"@),
        StepV::Key("items"@),
    ]
}

/// What the subscription feed holds for day `d` (today is 0).
pub open spec fn day_list(data: Json, d: nat) -> Json {
    travel(travel(data, days_path()), day_path(d))
}

/// The items of day `d` of the subscription feed.
pub open spec fn day_items(data: Json, d: nat) -> Seq<Json> {
    match day_list(data, d) {
        Json::Array(a) => a@,
        _ => Seq::empty(),
    }
}

/// Today, yesterday and the days before each hold an array of videos.
pub open spec fn has_recent_lists(data: Json) -> bool {
    &&& day_list(data, 0) is Array
    &&& day_list(data, 1) is Array
    &&& day_list(data, 2) is Array
}

fn days_path_exec() -> (p: Vec<Step>)
    ensures
        path_view(p@) == days_path(),
{
    let mut p = empty_path();
    push_key(&mut p, "contents");
    push_key(&mut p, "twoColumnBrowseResultsRenderer");
    push_key(&mut p, "tabs");
    push_idx(&mut p, 0);
    push_key(&mut p, "tabRenderer");
    push_key(&mut p, "content");
    push_key(&mut p, "sectionListRenderer");
    push_key(&mut p, "contents");
    assert(path_view(p@) =~= days_path());
    p
}

fn day_path_exec(d: usize) -> (p: Vec<Step>)
    ensures
        path_view(p@) == day_path(d as nat),
{
    let mut p = empty_path();
    push_idx(&mut p, d);
    push_key(&mut p, "itemSectionRenderer");
    push_key(&mut p, "contents");
    push_idx(&mut p, 0);
    push_key(&mut p, "shelfRenderer");
    push_key(&mut p, "content");
    push_key(&mut p, "gridRenderer");
    push_key(&mut p, "items");
    assert(path_view(p@) =~= day_path(d as nat));
    p
}

/// The items of day `d`, if they form an array.
fn day_array<'a>(data: &'a Json, d: usize) -> (r: Option<&'a Vec<Json>>)
    ensures
        match r {
            Some(a) => day_list(*data, d as nat) == Json::Array(*a),
            None => !(day_list(*data, d as nat) is Array),
        },
{
    match travel_path(data, &days_path_exec()) {
        Some(days) => array_along(days, &day_path_exec(d)),
        None => {
            proof {
                lemma_travel_null(day_path(d as nat));
            }
            None
        },
    }
}

/// Whether the subscription feed holds an array of videos for today,
/// yesterday and the days before.
pub fn has_recent(data: &Json) -> (r: bool)
    ensures
        r == has_recent_lists(*data),
{
    day_array(data, 0).is_some() && day_array(data, 1).is_some() && day_array(data, 2).is_some()
}

/// A video of the subscription feed is read from the item's
/// `gridVideoRenderer`: its id, title, second-to-next thumbnail (index 2),
/// views and time, and its channel and channel page from the short byline.
pub proof fn lemma_grid_video_fields(item: Json)
    ensures
        grid_video(item).id == text_at(item, seq![StepV::Key("gridVideoRenderer"@), StepV::Key("videoId"@)]),
        grid_video(item).title == text_at(item, seq![
            StepV::Key("gridVideoRenderer"@), StepV::Key("title"@), StepV::Key("runs"@), StepV::Idx(0), StepV::Key("text"@),
        ]),
        grid_video(item).thumb_url == text_at(item, seq![
            StepV::Key("gridVideoRenderer"@), StepV::Key("thumbnail"@), StepV::Key("thumbnails"@), StepV::Idx(2), StepV::Key("url"@),
        ]),
        grid_video(item).view_count == text_at(item, seq![
            StepV::Key("gridVideoRenderer"@), StepV::Key("viewCountText"@), StepV::Key("simpleText"@),
        ]),
        grid_video(item).posted_time == text_at(item, seq![
            StepV::Key("gridVideoRenderer"@), StepV::Key("publishedTimeText"@), StepV::Key("simpleText"@),
        ]),
        grid_video(item).channel == text_at(item, seq![
            StepV::Key("gridVideoRenderer"@), StepV::Key("shortBylineText"@), StepV::Key("runs"@), StepV::Idx(0), StepV::Key("text"@),
        ]),
        grid_video(item).channel_url == text_at(item, seq![
            StepV::Key("gridVideoRenderer"@),
            StepV::Key("shortBylineText"@),
            StepV::Key("runs"@),
            StepV::Idx(0),
            StepV::Key("navigationEndpoint"@),
            StepV::Key("browseEndpoint"@),
            StepV::Key("canonicalBaseUrl"@),
        ]),
{
    let pre = seq![StepV::Key("gridVideoRenderer"@)];
    lemma_renderer_paths(item, pre, 2, "shortBylineText"@);
    assert(pre + seq![StepV::Key("videoId"@)] =~= seq![StepV::Key("gridVideoRenderer"@), StepV::Key("videoId"@)]);
    assert(pre + seq![StepV::Key("title"@), StepV::Key("runs"@), StepV::Idx(0), StepV::Key("text"@)] =~= seq![
        StepV::Key("gridVideoRenderer"@), StepV::Key("title"@), StepV::Key("runs"@), StepV::Idx(0), StepV::Key("text"@),
    ]);
    assert(pre + seq![StepV::Key("thumbnail"@), StepV::Key("thumbnails"@), StepV::Idx(2), StepV::Key("url"@)] =~= seq![
        StepV::Key("gridVideoRenderer"@), StepV::Key("thumbnail"@), StepV::Key("thumbnails"@), StepV::Idx(2), StepV::Key("url"@),
    ]);
    assert(pre + seq![StepV::Key("viewCountText"@), StepV::Key("simpleText"@)] =~= seq![
        StepV::Key("gridVideoRenderer"@), StepV::Key("viewCountText"@), StepV::Key("simpleText"@),
    ]);
    assert(pre + seq![StepV::Key("publishedTimeText"@), StepV::Key("simpleText"@)] =~= seq![
        StepV::Key("gridVideoRenderer"@), StepV::Key("publishedTimeText"@), StepV::Key("simpleText"@),
    ]);
    assert(pre + seq![StepV::Key("shortBylineText"@), StepV::Key("runs"@), StepV::Idx(0), StepV::Key("text"@)] =~= seq![
        StepV::Key("gridVideoRenderer"@), StepV::Key("shortBylineText"@), StepV::Key("runs"@), StepV::Idx(0), StepV::Key("text"@),
    ]);
    assert(pre + seq![
        StepV::Key("shortBylineText"@),
        StepV::Key("runs"@),
        StepV::Idx(0),
        StepV::Key("navigationEndpoint"@),
        StepV::Key("browseEndpoint"@),
        StepV::Key("canonicalBaseUrl"@),
    ] =~= seq![
        StepV::Key("gridVideoRenderer"@),
        StepV::Key("shortBylineText"@),
        StepV::Key("runs"@),
        StepV::Idx(0),
        StepV::Key("navigationEndpoint"@),
        StepV::Key("browseEndpoint"@),
        StepV::Key("canonicalBaseUrl"@),
    ]);
}

/// Adds the videos that the items describe to `vids`.
fn append_grid_videos(vids: &mut Vec<Video>, items: &Vec<Json>)
    ensures
        final(vids)@.map_values(|v: Video| v@)
            == old(vids)@.map_values(|v: Video| v@) + items@.map_values(|j: Json| grid_video(j)),
{
    let mut p = empty_path();
    push_key(&mut p, "gridVideoRenderer");
    assert(path_view(p@) =~= seq![StepV::Key("gridVideoRenderer"@)]);
    let ghost start = vids@.map_values(|v: Video| v@);
    let ghost all = items@.map_values(|j: Json| grid_video(j));
    let mut i: usize = 0;
    while i < items.len()
        invariant
            i <= items.len(),
            path_view(p@) == seq![StepV::Key("gridVideoRenderer"@)],
            all == items@.map_values(|j: Json| grid_video(j)),
            vids@.map_values(|v: Video| v@) == start + all.take(i as int),
        decreases items.len() - i,
    {
        let v = video_below(&items[i], &p, 2, "shortBylineText");
        let ghost before = vids@;
        vids.push(v);
        assert(vids@.map_values(|v: Video| v@) =~= before.map_values(|v: Video| v@).push(vids@.last()@));
        assert(all.take(i + 1) =~= all.take(i as int).push(all[i as int]));
        i = i + 1;
    }
    assert(all.take(items.len() as int) =~= all);
}

/// The items of the subscription feed: today's, then yesterday's, then
/// those of the days before.
pub open spec fn recent_items(data: Json) -> Seq<Json> {
    day_items(data, 0) + day_items(data, 1) + day_items(data, 2)
}

/// The videos of the subscription feed: today's, then yesterday's, then
/// those of the days before, each in the order of the feed; each takes its
/// id and its channel and channel page from its own item's short byline.
pub fn recent_videos(data: &Json) -> (r: Vec<Video>)
    requires
        has_recent_lists(*data),
    ensures
        r@.map_values(|v: Video| v@) == day_items(*data, 0).map_values(|j: Json| grid_video(j))
            + day_items(*data, 1).map_values(|j: Json| grid_video(j))
            + day_items(*data, 2).map_values(|j: Json| grid_video(j)),
        r@.len() == recent_items(*data).len(),
        forall|k: int| 0 <= k < r@.len() ==> (#[trigger] r@[k]).id@ == text_at(recent_items(*data)[k], seq![
            StepV::Key("gridVideoRenderer"@), StepV::Key("videoId"@),
        ]),
        forall|k: int| 0 <= k < r@.len() ==> (#[trigger] r@[k]).channel@ == text_at(recent_items(*data)[k], seq![
            StepV::Key("gridVideoRenderer"@), StepV::Key("shortBylineText"@), StepV::Key("runs"@), StepV::Idx(0), StepV::Key("text"@),
        ]),
        forall|k: int| 0 <= k < r@.len() ==> (#[trigger] r@[k]).channel_url@ == text_at(recent_items(*data)[k], seq![
            StepV::Key("gridVideoRenderer"@),
            StepV::Key("shortBylineText"@),
            StepV::Key("runs"@),
            StepV::Idx(0),
            StepV::Key("navigationEndpoint"@),
            StepV::Key("browseEndpoint"@),
            StepV::Key("canonicalBaseUrl"@),
        ]),
{
    let today = day_array(data, 0).unwrap();
    let yesterday = day_array(data, 1).unwrap();
    let past = day_array(data, 2).unwrap();
    let mut r: Vec<Video> = Vec::new();
    assert(r@.map_values(|v: Video| v@) =~= Seq::<VideoView>::empty());
    append_grid_videos(&mut r, today);
    append_grid_videos(&mut r, yesterday);
    append_grid_videos(&mut r, past);
    assert(Seq::<VideoView>::empty() + day_items(*data, 0).map_values(|j: Json| grid_video(j))
        =~= day_items(*data, 0).map_values(|j: Json| grid_video(j)));
    proof {
        let items = recent_items(*data);
        assert(r@.map_values(|v: Video| v@) =~= items.map_values(|j: Json| grid_video(j)));
        assert forall|k: int| 0 <= k < r@.len() implies {
            &&& (#[trigger] r@[k]).id@ == text_at(items[k], seq![StepV::Key("gridVideoRenderer"@), StepV::Key("videoId"@)])
            &&& r@[k].channel@ == text_at(items[k], seq![
                StepV::Key("gridVideoRenderer"@), StepV::Key("shortBylineText"@), StepV::Key("runs"@), StepV::Idx(0), StepV::Key("text"@),
            ])
            &&& r@[k].channel_url@ == text_at(items[k], seq![
                StepV::Key("gridVideoRenderer"@),
                StepV::Key("shortBylineText"@),
                StepV::Key("runs"@),
                StepV::Idx(0),
                StepV::Key("navigationEndpoint"@),
                StepV::Key("browseEndpoint"@),
                StepV::Key("canonicalBaseUrl"@),
            ])
        } by {
            assert(r@.map_values(|v: Video| v@)[k] == r@[k]@);
            assert(items.map_values(|j: Json| grid_video(j))[k] == grid_video(items[k]));
            lemma_grid_video_fields(items[k]);
        }
    }
    r
}

/// What an item of a subscriptions page says of a channel.
pub struct ChannelInfo {
    pub name: String,
    pub id: String,
    pub description: String,
    pub thumbnail_url: String,
    pub item_count: String,
}

/// The text of each field of a `ChannelInfo`.
pub struct ChannelInfoView {
    pub name: Seq<char>,
    pub id: Seq<char>,
    pub description: Seq<char>,
    pub thumbnail_url: Seq<char>,
    pub item_count: Seq<char>,
}

impl View for ChannelInfo {
    type V = ChannelInfoView;

    open spec fn view(&self) -> ChannelInfoView {
        ChannelInfoView {
            name: self.name@,
            id: self.id@,
            description: self.description@,
            thumbnail_url: self.thumbnail_url@,
            item_count: self.item_count@,
        }
    }
}

/// What an item of a subscriptions page says of the channel subscribed to.
pub open spec fn channel_info(item: Json) -> ChannelInfoView {
    ChannelInfoView {
        name: text_at(item, seq![StepV::Key("snippet"@), StepV::Key("title"@)]),
        id: text_at(item, seq![StepV::Key("snippet"@), StepV::Key("resourceId"@), StepV::Key("channelId"@)]),
        description: text_at(item, seq![StepV::Key("snippet"@), StepV::Key("description"@)]),
        thumbnail_url: text_at(item, seq![StepV::Key("thumbnails"@), StepV::Key("high"@), StepV::Key("url"@)]),
        item_count: text_at(item, seq![StepV::Key("contentDetails"@), StepV::Key("totalItemCount"@)]),
    }
}

fn text3(j: &Json, a: &str, b: &str, c: &str) -> (r: String)
    ensures
        r@ == text_at(*j, seq![StepV::Key(a@), StepV::Key(b@), StepV::Key(c@)]),
{
    let mut p = empty_path();
    push_key(&mut p, a);
    push_key(&mut p, b);
    push_key(&mut p, c);
    assert(path_view(p@) =~= seq![StepV::Key(a@), StepV::Key(b@), StepV::Key(c@)]);
    text_along(j, &p)
}

/// What an item of a subscriptions page says of a channel.
pub fn channel_info_of(item: &Json) -> (r: ChannelInfo)
    ensures
        r@ == channel_info(*item),
{
    ChannelInfo {
        name: text2(item, "snippet", "title"),
        id: text3(item, "snippet", "resourceId", "channelId"),
        description: text2(item, "snippet", "description"),
        thumbnail_url: text3(item, "thumbnails", "high", "url"),
        item_count: text2(item, "contentDetails", "totalItemCount"),
    }
}

/// The channels that the pages of subscriptions list, page after page.
pub open spec fn subscribed(pages: Seq<Json>) -> Seq<ChannelInfoView>
    decreases pages.len(),
{
    if pages.len() == 0 {
        Seq::empty()
    } else {
        subscribed(pages.drop_last()) + page_items(pages.last()).map_values(|j: Json| channel_info(j))
    }
}

/// The channels that the pages of subscriptions list, page after page, in
/// the order of each page.
pub fn subscription_channels(pages: &Vec<Json>) -> (r: Vec<ChannelInfo>)
    requires
        forall|i: int| 0 <= i < pages@.len() ==> has_items(#[trigger] pages@[i]),
    ensures
        r@.map_values(|c: ChannelInfo| c@) == subscribed(pages@),
{
    let ip = items_path();
    let mut r: Vec<ChannelInfo> = Vec::new();
    let mut k: usize = 0;
    assert(r@.map_values(|c: ChannelInfo| c@) =~= subscribed(pages@.take(0)));
    while k < pages.len()
        invariant
            k <= pages.len(),
            path_view(ip@) == seq![StepV::Key("items"@)],
            forall|i: int| 0 <= i < pages@.len() ==> has_items(#[trigger] pages@[i]),
            r@.map_values(|c: ChannelInfo| c@) == subscribed(pages@.take(k as int)),
        decreases pages.len() - k,
    {
        assert(has_items(pages@[k as int]));
        let items = array_along(&pages[k], &ip).unwrap();
        let ghost start = r@.map_values(|c: ChannelInfo| c@);
        let ghost all = items@.map_values(|j: Json| channel_info(j));
        let mut i: usize = 0;
        while i < items.len()
            invariant
                i <= items.len(),
                all == items@.map_values(|j: Json| channel_info(j)),
                r@.map_values(|c: ChannelInfo| c@) == start + all.take(i as int),
            decreases items.len() - i,
        {
            let c = channel_info_of(&items[i]);
            let ghost before = r@;
            r.push(c);
            assert(r@.map_values(|c: ChannelInfo| c@) =~= before.map_values(|c: ChannelInfo| c@).push(r@.last()@));
            assert(all.take(i + 1) =~= all.take(i as int).push(all[i as int]));
            i = i + 1;
        }
        proof {
            assert(all.take(items.len() as int) =~= all);
            assert(pages@.take(k + 1).drop_last() =~= pages@.take(k as int));
            assert(pages@.take(k + 1).last() == pages@[k as int]);
            assert(items@ == page_items(pages@[k as int]));
        }
        k = k + 1;
    }
    assert(pages@.take(pages.len() as int) =~= pages@);
    r
}

/// The first page of subscriptions tells how many results there are and
/// how many a page holds, the latter not zero.
pub open spec fn page_info_valid(first: Json) -> bool {
    &&& num_at(first, seq![StepV::Key("pageInfo"@), StepV::Key("totalResults"@)]) is Some
    &&& num_at(first, seq![StepV::Key("pageInfo"@), StepV::Key("resultsPerPage"@)]) is Some
    &&& num_at(first, seq![StepV::Key("pageInfo"@), StepV::Key("resultsPerPage"@)])->0 != 0
}

/// How many more pages of subscriptions follow the first: the number of
/// results divided, rounding down, by the number per page.
pub open spec fn more_pages(first: Json) -> u64 {
    (num_at(first, seq![StepV::Key("pageInfo"@), StepV::Key("totalResults"@)])->0
        / num_at(first, seq![StepV::Key("pageInfo"@), StepV::Key("resultsPerPage"@)])->0) as u64
}

fn page_info_paths() -> (r: (Vec<Step>, Vec<Step>))
    ensures
        path_view(r.0@) == seq![StepV::Key("pageInfo"@), StepV::Key("totalResults"@)],
        path_view(r.1@) == seq![StepV::Key("pageInfo"@), StepV::Key("resultsPerPage"@)],
{
    let mut t = empty_path();
    push_key(&mut t, "pageInfo");
    push_key(&mut t, "totalResults");
    assert(path_view(t@) =~= seq![StepV::Key("pageInfo"@), StepV::Key("totalResults"@)]);
    let mut p = empty_path();
    push_key(&mut p, "pageInfo");
    push_key(&mut p, "resultsPerPage");
    assert(path_view(p@) =~= seq![StepV::Key("pageInfo"@), StepV::Key("resultsPerPage"@)]);
    (t, p)
}

/// The pages that follow the first are as many as the number of results
/// divided, rounding down, by the number a page holds, both as the first
/// page's `pageInfo` tells them.
pub proof fn lemma_more_pages(first: Json)
    requires
        page_info_valid(first),
    ensures
        more_pages(first) as int == num_at(first, seq![StepV::Key("pageInfo"@), StepV::Key("totalResults"@)])->0 as int
            / num_at(first, seq![StepV::Key("pageInfo"@), StepV::Key("resultsPerPage"@)])->0 as int,
{
}

/// Whether the first page of subscriptions tells how many pages follow.
pub fn has_page_info(first: &Json) -> (r: bool)
    ensures
        r == page_info_valid(*first),
{
    let (t, p) = page_info_paths();
    match (num_along(first, &t), num_along(first, &p)) {
        (Some(_), Some(per)) => per != 0,
        _ => false,
    }
}

/// How many more pages of subscriptions follow the first.
pub fn page_count(first: &Json) -> (r: u64)
    requires
        page_info_valid(*first),
    ensures
        r == more_pages(*first),
        r as int == num_at(*first, seq![StepV::Key("pageInfo"@), StepV::Key("totalResults"@)])->0 as int
            / num_at(*first, seq![StepV::Key("pageInfo"@), StepV::Key("resultsPerPage"@)])->0 as int,
{
    let (t, p) = page_info_paths();
    let total = num_along(first, &t).unwrap();
    let per = num_along(first, &p).unwrap();
    total / per
}

/// The path to the id of a channel's uploads playlist.
pub open spec fn uploads_path() -> Seq<StepV> {
    seq![
        StepV::Key("items"@),
        StepV::Idx(0),
        StepV::Key("contentDetails"@),
        StepV::Key("relatedPlaylists"@),
        StepV::Key("uploads"@),
    ]
}

/// The id of the uploads playlist that a channels page names, if it names
/// one.
pub fn uploads_playlist_id(resp: &Json) -> (r: Option<String>)
    ensures
        match r {
            Some(s) => str_at(*resp, uploads_path()) == Some(s@),
            None => str_at(*resp, uploads_path()) is None,
        },
{
    let mut p = empty_path();
    push_key(&mut p, "items");
    push_idx(&mut p, 0);
    push_key(&mut p, "contentDetails");
    push_key(&mut p, "relatedPlaylists");
    push_key(&mut p, "uploads");
    assert(path_view(p@) =~= uploads_path());
    str_along(resp, &p)
}

} // verus!
