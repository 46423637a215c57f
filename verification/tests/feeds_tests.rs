use yt::feeds::{
    channel_info_of, has_home_list, has_page_info, has_recent, home_videos, next_page_token, page_count,
    page_has_items, playlist_item_video, playlist_videos, recent_videos, subscription_channels, upload_page_step,
    uploads_playlist_id,
};
use yt::json::{key, idx, text_along, str_along, num_along, travel_path, Json, Step};
use yt::video::Video;

fn s(t: &str) -> Json {
    Json::Str(t.to_string())
}

fn obj(fields: Vec<(&str, Json)>) -> Json {
    Json::Object(fields.into_iter().map(|(k, v)| (k.to_string(), v)).collect())
}

fn arr(items: Vec<Json>) -> Json {
    Json::Array(items)
}

fn playlist_item(id: &str, title: &str) -> Json {
    obj(vec![
        ("contentDetails", obj(vec![("videoId", s(id))])),
        (
            "snippet",
            obj(vec![
                ("title", s(title)),
                ("thumbnails", obj(vec![("high", obj(vec![("url", s("http://img/high.jpg"))]))])),
                ("publishedAt", s("2021-01-01")),
                ("channelTitle", s("Chan")),
                ("channelId", s("UC9")),
            ]),
        ),
    ])
}

#[test]
fn travel_reads_keys_and_indices() {
    let j = obj(vec![("a", arr(vec![s("x"), obj(vec![("b", s("y"))])]))]);
    let p: Vec<Step> = vec![key("a"), idx(1), key("b")];
    assert_eq!(text_along(&j, &p), "y");
    let missing: Vec<Step> = vec![key("a"), idx(5), key("b")];
    assert_eq!(text_along(&j, &missing), "");
    assert!(travel_path(&j, &missing).is_none());
    assert_eq!(str_along(&j, &vec![key("a"), idx(0)]), Some("x".to_string()));
    assert_eq!(str_along(&j, &vec![key("a")]), None);
    let dup = obj(vec![("k", s("first")), ("k", s("second"))]);
    assert_eq!(text_along(&dup, &vec![key("k")]), "first");
    let n = obj(vec![("n", Json::Number(Some(42))), ("m", Json::Number(None))]);
    assert_eq!(num_along(&n, &vec![key("n")]), Some(42));
    assert_eq!(num_along(&n, &vec![key("m")]), None);
    assert_eq!(text_along(&n, &vec![key("n")]), "");
}

#[test]
fn playlist_item_fields() {
    let v = playlist_item_video(&playlist_item("vid1", "Title 1"));
    assert_eq!(v.id, "vid1");
    assert_eq!(v.title, "Title 1");
    assert_eq!(v.thumb_url, "http://img/high.jpg");
    assert_eq!(v.view_count, "");
    assert_eq!(v.posted_time, "2021-01-01");
    assert_eq!(v.channel, "Chan");
    assert_eq!(v.channel_url, "UC9");
    let empty = playlist_item_video(&Json::Null);
    assert_eq!(empty.id, "");
}

#[test]
fn playlist_pages() {
    let page = obj(vec![
        ("items", arr(vec![playlist_item("a", "A"), playlist_item("b", "B")])),
        ("nextPageToken", s("TOKEN2")),
    ]);
    assert!(page_has_items(&page));
    assert!(!page_has_items(&obj(vec![])));
    let v = playlist_videos(&page);
    assert_eq!(v.iter().map(|x| x.id.as_str()).collect::<Vec<_>>(), vec!["a", "b"]);
    assert_eq!(next_page_token(&page), Some("TOKEN2".to_string()));
    let last = obj(vec![("items", arr(vec![playlist_item("c", "C")]))]);
    assert_eq!(next_page_token(&last), None);
    let mut all: Vec<Video> = Vec::new();
    assert_eq!(upload_page_step(&mut all, &page), Some("TOKEN2".to_string()));
    assert_eq!(upload_page_step(&mut all, &last), None);
    assert_eq!(all.iter().map(|x| x.id.as_str()).collect::<Vec<_>>(), vec!["a", "b", "c"]);
}

fn rich_item(id: &str) -> Json {
    obj(vec![(
        "richItemRenderer",
        obj(vec![(
            "content",
            obj(vec![(
                "videoRenderer",
                obj(vec![
                    ("videoId", s(id)),
                    ("title", obj(vec![("runs", arr(vec![obj(vec![("text", s("T"))])]))])),
                    (
                        "thumbnail",
                        obj(vec![("thumbnails", arr(vec![obj(vec![("url", s("u0"))]), obj(vec![("url", s("u1"))])]))]),
                    ),
                    ("viewCountText", obj(vec![("simpleText", s("5 views"))])),
                    ("publishedTimeText", obj(vec![("simpleText", s("1 hour ago"))])),
                    (
                        "longBylineText",
                        obj(vec![(
                            "runs",
                            arr(vec![obj(vec![
                                ("text", s("Someone")),
                                (
                                    "navigationEndpoint",
                                    obj(vec![("browseEndpoint", obj(vec![("canonicalBaseUrl", s("/@someone"))]))]),
                                ),
                            ])]),
                        )]),
                    ),
                ]),
            )]),
        )]),
    )])
}

fn browse(renderer: &str, list: Json) -> Json {
    obj(vec![(
        "contents",
        obj(vec![(
            "twoColumnBrowseResultsRenderer",
            obj(vec![(
                "tabs",
                arr(vec![obj(vec![("tabRenderer", obj(vec![("content", obj(vec![(renderer, obj(vec![("contents", list)]))]))]))])]),
            )]),
        )]),
    )])
}

#[test]
fn home_feed_skips_items_without_id() {
    let ad = obj(vec![("richSectionRenderer", obj(vec![]))]);
    let data = browse("richGridRenderer", arr(vec![rich_item("v1"), ad, rich_item("v2")]));
    assert!(has_home_list(&data));
    let v = home_videos(&data);
    assert_eq!(v.len(), 2);
    assert_eq!(v[0].id, "v1");
    assert_eq!(v[0].title, "T");
    assert_eq!(v[0].thumb_url, "u1");
    assert_eq!(v[0].view_count, "5 views");
    assert_eq!(v[0].posted_time, "1 hour ago");
    assert_eq!(v[0].channel, "Someone");
    assert_eq!(v[0].channel_url, "/@someone");
    assert_eq!(v[1].id, "v2");
    assert!(!has_home_list(&obj(vec![])));
}

fn grid_item(id: &str) -> Json {
    obj(vec![("gridVideoRenderer", obj(vec![("videoId", s(id))]))])
}

fn day(items: Vec<Json>) -> Json {
    obj(vec![(
        "itemSectionRenderer",
        obj(vec![(
            "contents",
            arr(vec![obj(vec![(
                "shelfRenderer",
                obj(vec![("content", obj(vec![("gridRenderer", obj(vec![("items", arr(items))]))]))]),
            )])]),
        )]),
    )])
}

#[test]
fn recent_feed_joins_days() {
    let data = browse(
        "sectionListRenderer",
        arr(vec![day(vec![grid_item("t1"), grid_item("t2")]), day(vec![grid_item("y1")]), day(vec![grid_item("p1")])]),
    );
    assert!(has_recent(&data));
    let v = recent_videos(&data);
    assert_eq!(v.iter().map(|x| x.id.as_str()).collect::<Vec<_>>(), vec!["t1", "t2", "y1", "p1"]);
    assert_eq!(v[0].title, "");
    let two_days = browse("sectionListRenderer", arr(vec![day(vec![]), day(vec![])]));
    assert!(!has_recent(&two_days));
}

fn sub_item(name: &str, id: &str) -> Json {
    obj(vec![
        (
            "snippet",
            obj(vec![
                ("title", s(name)),
                ("resourceId", obj(vec![("channelId", s(id))])),
                ("description", s("about")),
            ]),
        ),
        ("thumbnails", obj(vec![("high", obj(vec![("url", s("th"))]))])),
        ("contentDetails", obj(vec![("totalItemCount", Json::Number(Some(12)))])),
    ])
}

#[test]
fn subscriptions_pages() {
    let p1 = obj(vec![
        ("items", arr(vec![sub_item("A", "UCa")])),
        ("pageInfo", obj(vec![("totalResults", Json::Number(Some(120))), ("resultsPerPage", Json::Number(Some(50)))])),
    ]);
    let p2 = obj(vec![("items", arr(vec![sub_item("B", "UCb"), sub_item("C", "UCc")]))]);
    let chans = subscription_channels(&vec![p1, p2]);
    assert_eq!(chans.len(), 3);
    assert_eq!(chans[0].name, "A");
    assert_eq!(chans[0].id, "UCa");
    assert_eq!(chans[0].description, "about");
    assert_eq!(chans[0].thumbnail_url, "th");
    assert_eq!(chans[0].item_count, "");
    assert_eq!(chans[2].id, "UCc");
    let info = channel_info_of(&obj(vec![("thumbnails", obj(vec![("high", obj(vec![("url", s("th"))]))]))]));
    assert_eq!(info.thumbnail_url, "th");
}

#[test]
fn page_count_divides() {
    let p = |t: u64, per: u64| obj(vec![("pageInfo", obj(vec![("totalResults", Json::Number(Some(t))), ("resultsPerPage", Json::Number(Some(per)))]))]);
    assert!(has_page_info(&p(120, 50)));
    assert_eq!(page_count(&p(120, 50)), 2);
    assert_eq!(page_count(&p(100, 50)), 2);
    assert_eq!(page_count(&p(49, 50)), 0);
    assert!(!has_page_info(&p(10, 0)));
    assert!(!has_page_info(&obj(vec![])));
}

#[test]
fn uploads_id_read() {
    let resp = obj(vec![(
        "items",
        arr(vec![obj(vec![("contentDetails", obj(vec![("relatedPlaylists", obj(vec![("uploads", s("UUxyz"))]))]))])]),
    )]);
    assert_eq!(uploads_playlist_id(&resp), Some("UUxyz".to_string()));
    assert_eq!(uploads_playlist_id(&obj(vec![("items", arr(vec![]))])), None);
}

#[test]
fn parse_json_reads_text() {
    let j = yt::json::parse_json("{\"items\": [{\"snippet\": {\"title\": \"T\"}}], \"n\": 7, \"neg\": -1}").unwrap();
    assert_eq!(text_along(&j, &vec![key("items"), idx(0), key("snippet"), key("title")]), "T");
    assert_eq!(num_along(&j, &vec![key("n")]), Some(7));
    assert_eq!(num_along(&j, &vec![key("neg")]), None);
    assert!(yt::json::parse_json("not json").is_none());
    assert!(matches!(yt::json::parse_json("null"), Some(Json::Null)));
}

#[test]
fn strings_of_lists() {
    let j = yt::json::parse_json("[\"a/b\", \"c\"]").unwrap();
    assert_eq!(yt::json::strings_of(&j), Some(vec!["a/b".to_string(), "c".to_string()]));
    assert_eq!(yt::json::strings_of(&yt::json::parse_json("[\"a\", 1]").unwrap()), None);
    assert_eq!(yt::json::strings_of(&yt::json::parse_json("{}").unwrap()), None);
    assert_eq!(yt::json::strings_of(&arr(vec![])), Some(vec![]));
}
