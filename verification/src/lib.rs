//! A typed proxy layer in front of a single upstream music-content REST API.
//!
//! The library covers the conventions that govern the proxy: building request
//! URLs from a normalized base URL, a path template and an ordered list of
//! query parameters; the typed response envelope shared by every operation;
//! and the translation of upstream failures into HTTP statuses and a
//! fixed-shape JSON error body. The HTTP transport itself, environment
//! reading and route registration live outside the library.

use vstd::prelude::*;

pub mod client;
pub mod config;
pub mod dto;
pub mod error;
pub mod json;
pub mod text;
pub mod urlenc;
pub mod web;

use crate::client::{
    cursor_pairs, keyword_cursor_pairs, opt_chars, strip_trailing_slashes, url_of, RemoteApiClient,
    DEFAULT_TIMEOUT_MS,
};
use crate::config::{default_remote_base, default_remote_base_str};

verus! {

/// The client preconfigured with the official upstream root.
pub struct MSRApiClient {
    pub inner: RemoteApiClient,
}

impl MSRApiClient {
    /// A client for the official upstream root, with the default timeout.
    pub fn new() -> (r: Self)
        ensures
            r.inner.base@ == strip_trailing_slashes(default_remote_base()),
            r.inner.timeout_ms == DEFAULT_TIMEOUT_MS,
            r.inner.wf(),
    {
        MSRApiClient { inner: RemoteApiClient::new(default_remote_base_str()) }
    }

    /// A client for a custom upstream root, with the default timeout.
    pub fn with_base(base: String) -> (r: Self)
        ensures
            r.inner.base@ == strip_trailing_slashes(base@),
            r.inner.timeout_ms == DEFAULT_TIMEOUT_MS,
            r.inner.wf(),
    {
        MSRApiClient { inner: RemoteApiClient::new(base) }
    }

    /// URL of the song detail operation.
    pub fn song_url(&self, id: &str) -> (r: String)
        ensures
            r@ == url_of(self.inner.base@, "song/"@ + id@, Seq::empty()),
    {
        self.inner.song_url(id)
    }

    /// URL of the full song listing operation.
    pub fn all_songs_url(&self) -> (r: String)
        ensures
            r@ == url_of(self.inner.base@, "songs"@, Seq::empty()),
    {
        self.inner.all_songs_url()
    }

    /// URL of the album data operation.
    pub fn album_url(&self, id: &str) -> (r: String)
        ensures
            r@ == url_of(self.inner.base@, "album/"@ + id@ + "/data"@, Seq::empty()),
    {
        self.inner.album_url(id)
    }

    /// URL of the album detail operation.
    pub fn album_detail_url(&self, id: &str) -> (r: String)
        ensures
            r@ == url_of(self.inner.base@, "album/"@ + id@ + "/detail"@, Seq::empty()),
    {
        self.inner.album_detail_url(id)
    }

    /// URL of the full album listing operation.
    pub fn all_albums_url(&self) -> (r: String)
        ensures
            r@ == url_of(self.inner.base@, "albums"@, Seq::empty()),
    {
        self.inner.all_albums_url()
    }

    /// URL of the news listing operation.
    pub fn all_news_url(&self, last_cid: Option<&str>) -> (r: String)
        ensures
            r@ == url_of(self.inner.base@, "news"@, cursor_pairs(opt_chars(last_cid))),
    {
        self.inner.all_news_url(last_cid)
    }

    /// URL of the news detail operation.
    pub fn news_detail_url(&self, id: &str) -> (r: String)
        ensures
            r@ == url_of(self.inner.base@, "news/"@ + id@, Seq::empty()),
    {
        self.inner.news_detail_url(id)
    }

    /// URL of the font set operation.
    pub fn font_url(&self) -> (r: String)
        ensures
            r@ == url_of(self.inner.base@, "fontset"@, Seq::empty()),
    {
        self.inner.font_url()
    }

    /// URL of the combined search operation.
    pub fn search_url(&self, keyword: &str) -> (r: String)
        ensures
            r@ == url_of(self.inner.base@, "search"@, keyword_cursor_pairs(keyword@, Option::None)),
    {
        self.inner.search_url(keyword)
    }

    /// URL of the album search operation.
    pub fn search_albums_url(&self, keyword: &str, last_cid: Option<&str>) -> (r: String)
        ensures
            r@ == url_of(
                self.inner.base@,
                "search/album"@,
                keyword_cursor_pairs(keyword@, opt_chars(last_cid)),
            ),
    {
        self.inner.search_albums_url(keyword, last_cid)
    }

    /// URL of the news search operation.
    pub fn search_news_url(&self, keyword: &str, last_cid: Option<&str>) -> (r: String)
        ensures
            r@ == url_of(
                self.inner.base@,
                "search/news"@,
                keyword_cursor_pairs(keyword@, opt_chars(last_cid)),
            ),
    {
        self.inner.search_news_url(keyword, last_cid)
    }
}

} // verus!
