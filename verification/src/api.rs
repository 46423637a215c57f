//! The addresses of the YouTube Data API requests.
use vstd::prelude::*;
use crate::feeds::{page_info_valid, more_pages, next_token, page_count, next_page_token};
use crate::json::Json;
use crate::text::{decimal, to_decimal};

verus! {

/// A client of the YouTube Data API.
pub struct YTApi {}

impl YTApi {
    pub fn new() -> (r: Self) {
        Self {}
    }
}

/// The address of a page of the user's subscriptions; the first page has
/// no page token.
pub open spec fn subscriptions_url(channel: Seq<char>, results: u8, key: Seq<char>, token: Option<Seq<char>>) -> Seq<char> {
    match token {
        None => "https://youtube.googleapis.com/youtube/v3/subscriptions?part=snippet%2CcontentDetails&channelId="@
            + channel + "&maxResults="@ + decimal(results as nat) + "&key="@ + key + "&order=unread"@,
        Some(t) => "https://youtube.googleapis.com/youtube/v3/subscriptions?part=snippet%2CcontentDetails&channelId="@
            + channel + "&maxResults="@ + decimal(results as nat) + "&key="@ + key + "&pageToken="@ + t
            + "&order=unread"@,
    }
}

/// The address of a page of the user's subscriptions.
pub fn subscriptions_url_of(channel: &str, results: u8, key: &str, token: Option<&str>) -> (r: String)
    ensures
        r@ == subscriptions_url(channel@, results, key@, match token { Some(t) => Some(t@), None => None }),
{
    let head = String::from_str("https://youtube.googleapis.com/youtube/v3/subscriptions?part=snippet%2CcontentDetails&channelId=")
        .concat(channel)
        .concat("&maxResults=")
        .concat(to_decimal(results as u64).as_str())
        .concat("&key=")
        .concat(key);
    match token {
        None => head.concat("&order=unread"),
        Some(t) => head.concat("&pageToken=").concat(t).concat("&order=unread"),
    }
}

/// The address of a page of a playlist's items.
pub open spec fn playlist_url(playlist: Seq<char>, key: Seq<char>, token: Option<Seq<char>>) -> Seq<char> {
    match token {
        None => "https://youtube.googleapis.com/youtube/v3/playlistItems?part=snippet%2CcontentDetails&maxResults=50&playlistId="@
            + playlist + "&key="@ + key,
        Some(t) => "https://youtube.googleapis.com/youtube/v3/playlistItems?part=snippet%2CcontentDetails&maxResults=50&pageToken="@
            + t + "&playlistId="@ + playlist + "&key="@ + key,
    }
}

/// The address of a page of a channel's uploads, given the id of its
/// uploads playlist.
pub fn channel_uploads_url(playlist: &str, key: &str, token: Option<&str>) -> (r: String)
    ensures
        r@ == playlist_url(playlist@, key@, match token { Some(t) => Some(t@), None => None }),
{
    match token {
        None => String::from_str("https://youtube.googleapis.com/youtube/v3/playlistItems?part=snippet%2CcontentDetails&maxResults=50&playlistId=")
            .concat(playlist)
            .concat("&key=")
            .concat(key),
        Some(t) => String::from_str("https://youtube.googleapis.com/youtube/v3/playlistItems?part=snippet%2CcontentDetails&maxResults=50&pageToken=")
            .concat(t)
            .concat("&playlistId=")
            .concat(playlist)
            .concat("&key=")
            .concat(key),
    }
}

/// The address that asks for the details of a channel, among them its
/// uploads playlist.
pub fn channel_details_url(channel_id: &str, key: &str) -> (r: String)
    ensures
        r@ == "https://youtube.googleapis.com/youtube/v3/channels?part=contentDetails&id="@ + channel_id@ + "&key="@ + key@,
{
    String::from_str("https://youtube.googleapis.com/youtube/v3/channels?part=contentDetails&id=")
        .concat(channel_id)
        .concat("&key=")
        .concat(key)
}

/// What fetching the subscriptions page by page can go on from: once the
/// first page is in, it tells how many pages follow, and each page short of
/// the last names the token of the next.
pub open spec fn subscription_pages_ok(pages: Seq<Json>) -> bool {
    pages.len() > 0 ==> {
        &&& page_info_valid(pages[0])
        &&& pages.len() - 1 < more_pages(pages[0]) ==> next_token(pages.last()) is Some
    }
}

/// The next page of subscriptions to fetch after `pages`, or `None` when
/// all are in: first the page without a token, then as many pages as the
/// first announces, each with the token that the page before names.
pub fn subscriptions_next(pages: &Vec<Json>, channel: &str, results: u8, key: &str) -> (r: Option<String>)
    requires
        subscription_pages_ok(pages@),
    ensures
        pages@.len() == 0 ==> r is Some && r->0@ == subscriptions_url(channel@, results, key@, None),
        pages@.len() > 0 && pages@.len() - 1 < more_pages(pages@[0]) ==> r is Some
            && r->0@ == subscriptions_url(channel@, results, key@, next_token(pages@.last())),
        pages@.len() > 0 && pages@.len() - 1 >= more_pages(pages@[0]) ==> r is None,
{
    if pages.len() == 0 {
        return Some(subscriptions_url_of(channel, results, key, None));
    }
    let count = page_count(&pages[0]);
    if ((pages.len() - 1) as u64) < count {
        let token = next_page_token(&pages[pages.len() - 1]).unwrap();
        Some(subscriptions_url_of(channel, results, key, Some(token.as_str())))
    } else {
        None
    }
}

} // verus!
