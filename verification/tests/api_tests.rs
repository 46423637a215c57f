use yt::api::{channel_details_url, channel_uploads_url, subscriptions_next, subscriptions_url_of, YTApi};
use yt::json::Json;
use yt::scrape::filter_json;

fn obj(fields: Vec<(&str, Json)>) -> Json {
    Json::Object(fields.into_iter().map(|(k, v)| (k.to_string(), v)).collect())
}

#[test]
fn api_new() {
    let _api: YTApi = YTApi::new();
}

#[test]
fn subscription_urls() {
    assert_eq!(
        subscriptions_url_of("UCme", 50, "KEY", None),
        "https://youtube.googleapis.com/youtube/v3/subscriptions?part=snippet%2CcontentDetails&channelId=UCme&maxResults=50&key=KEY&order=unread"
    );
    assert_eq!(
        subscriptions_url_of("UCme", 5, "KEY", Some("TOK")),
        "https://youtube.googleapis.com/youtube/v3/subscriptions?part=snippet%2CcontentDetails&channelId=UCme&maxResults=5&key=KEY&pageToken=TOK&order=unread"
    );
}

#[test]
fn playlist_and_channel_urls() {
    assert_eq!(
        channel_uploads_url("UUx", "KEY", None),
        "https://youtube.googleapis.com/youtube/v3/playlistItems?part=snippet%2CcontentDetails&maxResults=50&playlistId=UUx&key=KEY"
    );
    assert_eq!(
        channel_uploads_url("UUx", "KEY", Some("P2")),
        "https://youtube.googleapis.com/youtube/v3/playlistItems?part=snippet%2CcontentDetails&maxResults=50&pageToken=P2&playlistId=UUx&key=KEY"
    );
    assert_eq!(
        channel_details_url("UCx", "KEY"),
        "https://youtube.googleapis.com/youtube/v3/channels?part=contentDetails&id=UCx&key=KEY"
    );
}

#[test]
fn subscriptions_paging() {
    let first = obj(vec![
        ("pageInfo", obj(vec![("totalResults", Json::Number(Some(120))), ("resultsPerPage", Json::Number(Some(50)))])),
        ("nextPageToken", Json::Str("T1".to_string())),
    ]);
    let second = obj(vec![("nextPageToken", Json::Str("T2".to_string()))]);
    let third = obj(vec![]);
    let mut pages: Vec<Json> = Vec::new();
    let u0 = subscriptions_next(&pages, "UC", 50, "K").unwrap();
    assert!(u0.ends_with("&key=K&order=unread"));
    pages.push(first);
    let u1 = subscriptions_next(&pages, "UC", 50, "K").unwrap();
    assert!(u1.ends_with("&pageToken=T1&order=unread"));
    pages.push(second);
    let u2 = subscriptions_next(&pages, "UC", 50, "K").unwrap();
    assert!(u2.ends_with("&pageToken=T2&order=unread"));
    pages.push(third);
    assert_eq!(subscriptions_next(&pages, "UC", 50, "K"), None);
}

#[test]
fn filter_json_finds_initial_data() {
    let html = "<html><script>var ytInitialData = {\"a\": 1};</script><p>x</p></html>";
    assert_eq!(filter_json(html), Some("{\"a\": 1}".to_string()));
    assert_eq!(filter_json("<html>nothing</html>"), None);
}
