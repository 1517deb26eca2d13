//! URL construction: base normalization, path templating, query assembly.

use msr_api_rs::client::RemoteApiClient;
use msr_api_rs::MSRApiClient;

#[test]
fn test_url_normalization() {
    let _client = RemoteApiClient::new("https://example.com/".to_string());
    assert!(true);

    let _client = RemoteApiClient::new("https://example.com//".to_string());
    assert!(true);
}

#[test]
fn test_client_creation() {
    let _client = RemoteApiClient::new("https://example.com".to_string());
    assert!(true);
}

#[test]
fn base_with_trailing_slashes_gives_identical_urls() {
    let plain = RemoteApiClient::new("https://example.com".to_string());
    let one = RemoteApiClient::new("https://example.com/".to_string());
    let two = RemoteApiClient::new("https://example.com//".to_string());
    assert_eq!(plain.song_url("1"), one.song_url("1"));
    assert_eq!(plain.song_url("1"), two.song_url("1"));
    assert_eq!(plain.search_albums_url("x", Some("42")), two.search_albums_url("x", Some("42")));
    assert_eq!(plain.base, "https://example.com");
    assert_eq!(one.base, "https://example.com");
    assert_eq!(two.base, "https://example.com");
}

#[test]
fn song_url_uses_path_template() {
    let c = RemoteApiClient::new("https://example.com".to_string());
    assert_eq!(c.song_url("125042"), "https://example.com/song/125042");
}

#[test]
fn simple_operation_urls() {
    let c = RemoteApiClient::new("https://example.com".to_string());
    assert_eq!(c.all_songs_url(), "https://example.com/songs");
    assert_eq!(c.album_url("3888"), "https://example.com/album/3888/data");
    assert_eq!(c.album_detail_url("3888"), "https://example.com/album/3888/detail");
    assert_eq!(c.all_albums_url(), "https://example.com/albums");
    assert_eq!(c.news_detail_url("7"), "https://example.com/news/7");
    assert_eq!(c.font_url(), "https://example.com/fontset");
}

#[test]
fn search_album_url_carries_keyword_and_cursor() {
    let c = RemoteApiClient::new("https://example.com".to_string());
    let url = c.search_albums_url("x", Some("42"));
    assert!(url.contains("keyword=x"));
    assert!(url.contains("lastCid=42"));
    assert_eq!(url, "https://example.com/search/album?keyword=x&lastCid=42");
}

#[test]
fn omitted_cursor_is_absent_not_empty() {
    let c = RemoteApiClient::new("https://example.com".to_string());
    let news = c.all_news_url(None);
    assert_eq!(news, "https://example.com/news");
    assert!(!news.contains("lastCid"));
    assert!(!news.contains('?'));
    let albums = c.search_albums_url("x", None);
    assert_eq!(albums, "https://example.com/search/album?keyword=x");
    assert!(!albums.contains("lastCid"));
    let news_search = c.search_news_url("x", None);
    assert_eq!(news_search, "https://example.com/search/news?keyword=x");
    assert!(!news_search.contains("lastCid"));
}

#[test]
fn present_cursor_is_sent() {
    let c = RemoteApiClient::new("https://example.com".to_string());
    assert_eq!(c.all_news_url(Some("9")), "https://example.com/news?lastCid=9");
    assert_eq!(
        c.search_news_url("au", Some("9")),
        "https://example.com/search/news?keyword=au&lastCid=9"
    );
}

#[test]
fn query_values_are_form_encoded() {
    let c = RemoteApiClient::new("https://example.com".to_string());
    assert_eq!(c.search_url("hello world"), "https://example.com/search?keyword=hello+world");
    assert_eq!(c.search_url("a&b=c"), "https://example.com/search?keyword=a%26b%3Dc");
    assert_eq!(c.search_url("森"), "https://example.com/search?keyword=%E6%A3%AE");
    assert_eq!(c.search_url("a*-._z"), "https://example.com/search?keyword=a*-._z");
}

#[test]
fn request_url_trims_leading_path_slashes() {
    let c = RemoteApiClient::new("https://example.com".to_string());
    let q: Vec<(&str, &str)> = Vec::new();
    assert_eq!(c.request_url("//songs", &q), "https://example.com/songs");
    assert_eq!(c.request_url("songs", &q), "https://example.com/songs");
}

#[test]
fn default_client_uses_official_root() {
    let c = MSRApiClient::new();
    assert_eq!(c.inner.base, "https://monster-siren.hypergryph.com/api");
    assert_eq!(c.inner.timeout_ms, 30000);
    assert_eq!(
        c.song_url("953953"),
        "https://monster-siren.hypergryph.com/api/song/953953"
    );
}

#[test]
fn custom_base_client_forwards_operations() {
    let c = MSRApiClient::with_base("https://example.com/".to_string());
    assert_eq!(c.all_songs_url(), "https://example.com/songs");
    assert_eq!(c.album_url("1"), "https://example.com/album/1/data");
    assert_eq!(c.album_detail_url("1"), "https://example.com/album/1/detail");
    assert_eq!(c.all_albums_url(), "https://example.com/albums");
    assert_eq!(c.all_news_url(None), "https://example.com/news");
    assert_eq!(c.news_detail_url("1"), "https://example.com/news/1");
    assert_eq!(c.font_url(), "https://example.com/fontset");
    assert_eq!(c.search_url("q"), "https://example.com/search?keyword=q");
    assert_eq!(
        c.search_albums_url("q", Some("5")),
        "https://example.com/search/album?keyword=q&lastCid=5"
    );
    assert_eq!(
        c.search_news_url("q", None),
        "https://example.com/search/news?keyword=q"
    );
}

#[test]
fn empty_keyword_is_sent_empty_once_present() {
    let c = RemoteApiClient::new("https://example.com".to_string());
    assert_eq!(c.search_url(""), "https://example.com/search?keyword=");
}

#[test]
fn base_of_only_slashes_normalizes_to_empty() {
    let c = RemoteApiClient::new("///".to_string());
    assert_eq!(c.base, "");
    assert_eq!(c.all_songs_url(), "/songs");
}

#[test]
fn custom_timeout_is_kept() {
    let c = RemoteApiClient::with_config("https://example.com".to_string(), 60000);
    assert_eq!(c.timeout_ms, 60000);
    assert_eq!(c.base, "https://example.com");
}
