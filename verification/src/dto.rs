//! The typed response envelope shared by every upstream operation, the
//! payload records it wraps, and the query-parameter records of the inbound
//! endpoints.
//!
//! Payload fields keep one local name per entity; the upstream wire names
//! (including the upstream's own inconsistent spellings, such as `artistes`)
//! belong to the serialization layer outside the library.

use vstd::prelude::*;

verus! {

/// The uniform envelope of every upstream response: `code` is zero exactly
/// when the call succeeded, `msg` is empty on success and a human-readable
/// description on failure, and `data` is only meaningful when `code` is zero.
#[derive(Debug, Clone)]
pub struct ApiResp<T> {
    pub code: i32,
    pub msg: String,
    pub data: T,
}

impl<T> ApiResp<T> {
    /// A successful envelope around the given payload.
    pub fn success(data: T) -> (r: Self)
        ensures
            r.code == 0,
            r.msg@ == Seq::<char>::empty(),
            r.data == data,
    {
        ApiResp { code: 0, msg: String::new(), data }
    }

    /// A failed envelope carrying the given message; its payload is a filler
    /// value and carries no meaning.
    pub fn error(msg: String) -> (r: Self) where T: Default
        ensures
            r.code == -1,
            r.msg@ == msg@,
    {
        ApiResp { code: -1, msg, data: T::default() }
    }
}

/// A song with its media locations.
#[derive(Debug, Clone)]
pub struct SongData {
    pub id: String,
    pub name: String,
    pub album_id: String,
    pub source_url: Option<String>,
    pub lyric_url: Option<String>,
    pub mv_url: Option<String>,
    pub mv_cover_url: Option<String>,
    pub artists: Vec<String>,
}

pub type SongResp = ApiResp<SongData>;

/// One entry of the full song listing.
#[derive(Debug, Clone)]
pub struct AllSongsItem {
    pub id: String,
    pub name: String,
    pub album_id: String,
    pub artists: Vec<String>,
}

/// The full song listing and the identifier of the song to play by default.
#[derive(Debug, Clone)]
pub struct AllSongsData {
    pub list: Vec<AllSongsItem>,
    pub autoplay: String,
}

pub type AllSongsResp = ApiResp<AllSongsData>;

/// An album's own data.
#[derive(Debug, Clone)]
pub struct AlbumData {
    pub id: String,
    pub name: String,
    pub intro: String,
    pub belong: String,
    pub cover_url: String,
    pub cover_de_url: String,
    pub artists: Vec<String>,
}

pub type AlbumResp = ApiResp<AlbumData>;

/// One song entry inside an album's detail.
#[derive(Debug, Clone)]
pub struct AlbumDetailSongItem {
    pub id: String,
    pub name: String,
    pub artists: Vec<String>,
}

/// An album's data together with its song list.
#[derive(Debug, Clone)]
pub struct AlbumDetailData {
    pub id: String,
    pub name: String,
    pub intro: String,
    pub belong: String,
    pub cover_url: String,
    pub cover_de_url: String,
    pub songs: Vec<AlbumDetailSongItem>,
}

pub type AlbumDetailResp = ApiResp<AlbumDetailData>;

/// One entry of the full album listing. The listing's envelope wraps a bare
/// list of these directly, an asymmetry of the upstream wire format.
#[derive(Debug, Clone)]
pub struct AllAlbumsItem {
    pub id: String,
    pub name: String,
    pub cover_url: String,
    pub artists: Vec<String>,
}

/// One album in a search result.
#[derive(Debug, Clone)]
pub struct SearchAlbumItem {
    pub id: String,
    pub name: String,
    pub belong: String,
    pub cover_url: String,
    pub artists: Vec<String>,
}

/// The album part of a search result; `end` is true when no further pages
/// exist.
#[derive(Debug, Clone)]
pub struct SearchAlbumData {
    pub list: Vec<SearchAlbumItem>,
    pub end: bool,
}

/// Query parameters of the album search endpoint.
#[derive(Debug, Clone)]
pub struct SearchAlbumQuery {
    pub keyword: String,
    pub last_cid: Option<String>,
}

pub type SearchAlbumResp = ApiResp<SearchAlbumData>;

/// One news entry in a listing; the publish date is kept opaquely as the
/// upstream sends it.
#[derive(Debug, Clone)]
pub struct NewsItem {
    pub id: String,
    pub title: String,
    pub cate: i32,
    pub date: String,
}

/// A page of news entries; `end` is true when no further pages exist.
#[derive(Debug, Clone)]
pub struct NewsData {
    pub list: Vec<NewsItem>,
    pub end: bool,
}

/// Query parameters of the news search endpoint.
#[derive(Debug, Clone)]
pub struct NewsQuery {
    pub keyword: String,
    pub last_cid: Option<String>,
}

/// Query parameters of the news listing endpoint.
#[derive(Debug, Clone)]
pub struct AllNewsQuery {
    pub last_cid: Option<String>,
}

pub type SearchNewsResp = ApiResp<NewsData>;

/// Query parameters of the combined search endpoint.
#[derive(Debug, Clone)]
pub struct SearchQuery {
    pub keyword: String,
}

/// The combined search result over albums and news.
#[derive(Debug, Clone)]
pub struct SearchData {
    pub albums: SearchAlbumData,
    pub news: NewsData,
}

pub type SearchResp = ApiResp<SearchData>;

/// A news entry's full content.
#[derive(Debug, Clone)]
pub struct NewsDetailData {
    pub id: String,
    pub title: String,
    pub cate: i32,
    pub author: String,
    pub content: String,
    pub date: String,
}

pub type NewsDetailResp = ApiResp<NewsDetailData>;

/// The format-specific locations of one font family.
#[derive(Debug, Clone)]
pub struct FontItem {
    pub tt: String,
    pub eot: String,
    pub svg: String,
    pub woff: String,
}

/// The two font families of the font set.
#[derive(Debug, Clone)]
pub struct FontData {
    pub sans_regular: FontItem,
    pub sans_bold: FontItem,
}

pub type FontResp = ApiResp<FontData>;

} // verus!
