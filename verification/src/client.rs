//! Upstream client conventions: base-URL normalization and construction of
//! the request URL for each supported upstream operation.
//!
//! Every operation's URL is built by one primitive from the normalized base,
//! a relative path and an ordered list of query pairs; a pagination cursor
//! that is absent contributes no query pair at all.

use vstd::prelude::*;
use crate::text::push_char;
use crate::urlenc::{append_form_encoded, form_encoded};

verus! {

/// The per-request timeout used when none is configured, in milliseconds.
pub const DEFAULT_TIMEOUT_MS: u64 = 30000;

/// The base URL with every trailing `'/'` removed, so that joining it with a
/// path never produces a doubled separator.
pub open spec fn strip_trailing_slashes(s: Seq<char>) -> Seq<char>
    decreases s.len(),
{
    if s.len() > 0 && s.last() == '/' {
        strip_trailing_slashes(s.drop_last())
    } else {
        s
    }
}

/// A path with every leading `'/'` removed, so that joining never doubles
/// the separator the builder inserts itself.
pub open spec fn strip_leading_slashes(s: Seq<char>) -> Seq<char>
    decreases s.len(),
{
    if s.len() > 0 && s[0] == '/' {
        strip_leading_slashes(s.drop_first())
    } else {
        s
    }
}

/// One query pair as it appears in the query string.
pub open spec fn pair_encoding(p: (Seq<char>, Seq<char>)) -> Seq<char> {
    form_encoded(p.0) + seq!['='] + form_encoded(p.1)
}

/// The query pairs joined with `'&'`.
pub open spec fn pairs_encoding(pairs: Seq<(Seq<char>, Seq<char>)>) -> Seq<char>
    decreases pairs.len(),
{
    if pairs.len() == 0 {
        seq![]
    } else if pairs.len() == 1 {
        pair_encoding(pairs[0])
    } else {
        pairs_encoding(pairs.drop_last()) + seq!['&'] + pair_encoding(pairs.last())
    }
}

/// The query part of a URL: empty when there are no pairs, otherwise `'?'`
/// followed by the joined pairs.
pub open spec fn query_suffix_of(pairs: Seq<(Seq<char>, Seq<char>)>) -> Seq<char> {
    if pairs.len() == 0 {
        seq![]
    } else {
        seq!['?'] + pairs_encoding(pairs)
    }
}

/// The full request URL built from a normalized base, a relative path and an
/// ordered list of query pairs.
pub open spec fn url_of(base: Seq<char>, path: Seq<char>, pairs: Seq<(Seq<char>, Seq<char>)>) -> Seq<
    char,
> {
    base + seq!['/'] + strip_leading_slashes(path) + query_suffix_of(pairs)
}

/// The query pairs a pagination cursor contributes: none when it is absent.
pub open spec fn cursor_pairs(last_cid: Option<Seq<char>>) -> Seq<(Seq<char>, Seq<char>)> {
    match last_cid {
        Option::None => seq![],
        Option::Some(c) => seq![("lastCid"@, c)],
    }
}

/// The query pairs of a search: the keyword, then the cursor if present.
pub open spec fn keyword_cursor_pairs(keyword: Seq<char>, last_cid: Option<Seq<char>>) -> Seq<
    (Seq<char>, Seq<char>),
> {
    seq![("keyword"@, keyword)] + cursor_pairs(last_cid)
}

/// The view of an optional borrowed string.
pub open spec fn opt_chars(o: Option<&str>) -> Option<Seq<char>> {
    match o {
        Option::None => Option::None,
        Option::Some(s) => Option::Some(s@),
    }
}

/// Stripping trailing slashes keeps exactly the longest prefix that does not
/// end in `'/'`.
proof fn lemma_strip_trailing_slashes_prefix(s: Seq<char>, n: int)
    requires
        0 <= n <= s.len(),
        forall|i: int| n <= i < s.len() ==> s[i] == '/',
        n == 0 || s[n - 1] != '/',
    ensures
        strip_trailing_slashes(s) == s.subrange(0, n),
    decreases s.len(),
{
    if s.len() > n {
        assert(s.last() == '/');
        lemma_strip_trailing_slashes_prefix(s.drop_last(), n);
        assert(s.drop_last().subrange(0, n) =~= s.subrange(0, n));
    } else {
        assert(s.subrange(0, n) =~= s);
    }
}

/// What stripping returns never ends in a slash.
proof fn lemma_strip_trailing_slashes_no_slash(s: Seq<char>)
    ensures
        strip_trailing_slashes(s).len() == 0 || strip_trailing_slashes(s).last() != '/',
    decreases s.len(),
{
    if s.len() > 0 && s.last() == '/' {
        lemma_strip_trailing_slashes_no_slash(s.drop_last());
    }
}

/// Stripping trailing slashes is idempotent.
pub proof fn lemma_strip_trailing_slashes_idempotent(s: Seq<char>)
    ensures
        strip_trailing_slashes(strip_trailing_slashes(s)) == strip_trailing_slashes(s),
{
    lemma_strip_trailing_slashes_no_slash(s);
}

/// Appending any run of slashes to the base does not change the normalized
/// base.
pub proof fn lemma_trailing_slashes_ignored(base: Seq<char>, slashes: Seq<char>)
    requires
        forall|i: int| 0 <= i < slashes.len() ==> slashes[i] == '/',
    ensures
        strip_trailing_slashes(base + slashes) == strip_trailing_slashes(base),
    decreases slashes.len(),
{
    if slashes.len() == 0 {
        assert(base + slashes =~= base);
    } else {
        let joined = base + slashes;
        assert(joined.last() == '/');
        assert(joined.drop_last() =~= base + slashes.drop_last());
        lemma_trailing_slashes_ignored(base, slashes.drop_last());
    }
}

/// Base URLs that differ only in a run of trailing slashes produce identical
/// request URLs once the client has normalized them, whatever the operation's
/// path and query pairs are.
pub proof fn lemma_url_unaffected_by_trailing_slashes(
    base: Seq<char>,
    slashes: Seq<char>,
    path: Seq<char>,
    pairs: Seq<(Seq<char>, Seq<char>)>,
)
    requires
        forall|i: int| 0 <= i < slashes.len() ==> slashes[i] == '/',
    ensures
        url_of(strip_trailing_slashes(base + slashes), path, pairs) == url_of(
            strip_trailing_slashes(base),
            path,
            pairs,
        ),
{
    lemma_trailing_slashes_ignored(base, slashes);
}

/// An absent pagination cursor is absent from the query pairs altogether:
/// the cursor contributes no pair, and no pair of a search carries the
/// cursor's name.
pub proof fn lemma_omitted_cursor_not_sent(keyword: Seq<char>)
    ensures
        cursor_pairs(Option::None) =~= Seq::<(Seq<char>, Seq<char>)>::empty(),
        forall|i: int|
            0 <= i < keyword_cursor_pairs(keyword, Option::None).len()
                ==> #[trigger] keyword_cursor_pairs(keyword, Option::None)[i].0 != "lastCid"@,
{
    reveal_strlit("keyword");
    reveal_strlit("lastCid");
    assert(keyword_cursor_pairs(keyword, Option::None).len() == 1);
    assert(keyword_cursor_pairs(keyword, Option::None)[0].0 == "keyword"@);
    assert("keyword"@[0] != "lastCid"@[0]);
}

/// Joining one more pair extends the query suffix by its separator and the
/// pair's encoding.
proof fn lemma_query_suffix_snoc(pairs: Seq<(Seq<char>, Seq<char>)>, i: int)
    requires
        0 <= i < pairs.len(),
    ensures
        query_suffix_of(pairs.subrange(0, i + 1)) == query_suffix_of(pairs.subrange(0, i)) + (
        if i == 0 {
            seq!['?']
        } else {
            seq!['&']
        }) + pair_encoding(pairs[i]),
{
    let upto = pairs.subrange(0, i + 1);
    assert(upto.drop_last() =~= pairs.subrange(0, i));
    assert(upto.last() == pairs[i]);
    if i == 0 {
        assert(upto.len() == 1);
        assert(query_suffix_of(upto) =~= seq!['?'] + pair_encoding(pairs[0]));
        assert(query_suffix_of(pairs.subrange(0, 0)) =~= Seq::<char>::empty());
        assert(query_suffix_of(pairs.subrange(0, i + 1)) =~= query_suffix_of(
            pairs.subrange(0, i),
        ) + seq!['?'] + pair_encoding(pairs[i]));
    } else {
        assert(query_suffix_of(upto) =~= seq!['?'] + (pairs_encoding(pairs.subrange(0, i)) + seq![
            '&',
        ] + pair_encoding(pairs[i])));
        assert(query_suffix_of(pairs.subrange(0, i + 1)) =~= query_suffix_of(
            pairs.subrange(0, i),
        ) + seq!['&'] + pair_encoding(pairs[i]));
    }
}

/// The upstream client's conventions: the normalized base URL every request
/// URL starts from, and the per-request timeout the transport is to enforce.
#[derive(Debug, Clone)]
pub struct RemoteApiClient {
    pub base: String,
    pub timeout_ms: u64,
}

impl RemoteApiClient {
    /// The stored base carries no trailing slash.
    pub open spec fn wf(&self) -> bool {
        self.base@ == strip_trailing_slashes(self.base@)
    }

    /// A client with the default timeout.
    pub fn new(base: String) -> (r: Self)
        ensures
            r.base@ == strip_trailing_slashes(base@),
            r.timeout_ms == DEFAULT_TIMEOUT_MS,
            r.wf(),
    {
        Self::with_config(base, DEFAULT_TIMEOUT_MS)
    }

    /// A client with the given per-request timeout in milliseconds.
    pub fn with_config(base: String, timeout_ms: u64) -> (r: Self)
        ensures
            r.base@ == strip_trailing_slashes(base@),
            r.timeout_ms == timeout_ms,
            r.wf(),
    {
        let normalized = trim_trailing_slashes(base.as_str());
        proof {
            lemma_strip_trailing_slashes_idempotent(base@);
        }
        RemoteApiClient { base: normalized, timeout_ms }
    }

    /// The request URL for the given relative path and ordered query pairs:
    /// the single primitive every operation's URL comes from.
    pub fn request_url(&self, path: &str, query: &Vec<(&str, &str)>) -> (r: String)
        ensures
            r@ == url_of(self.base@, path@, query.deep_view()),
    {
        let mut u = self.base.clone();
        u.append("/");
        let plen = path.unicode_len();
        let mut m: usize = 0;
        while m < plen && path.get_char(m) == '/'
            invariant
                0 <= m <= plen,
                plen == path@.len(),
                forall|i: int| 0 <= i < m ==> path@[i] == '/',
            decreases plen - m,
        {
            m = m + 1;
        }
        proof {
            lemma_strip_leading_slashes_suffix(path@, m as int);
            reveal_strlit("/");
        }
        u.append(path.substring_char(m, plen));
        assert(u@ =~= url_of(self.base@, path@, query.deep_view().subrange(0, 0)));
        let n = query.len();
        let mut i: usize = 0;
        while i < n
            invariant
                0 <= i <= n,
                n == query@.len(),
                n == query.deep_view().len(),
                u@ == url_of(self.base@, path@, query.deep_view().subrange(0, i as int)),
            decreases n - i,
        {
            let (k, v) = query[i];
            if i == 0 {
                push_char(&mut u, '?');
            } else {
                push_char(&mut u, '&');
            }
            append_form_encoded(&mut u, k);
            push_char(&mut u, '=');
            append_form_encoded(&mut u, v);
            proof {
                assert(query.deep_view()[i as int] == (k@, v@));
                lemma_query_suffix_snoc(query.deep_view(), i as int);
                assert(u@ =~= url_of(self.base@, path@, query.deep_view().subrange(0, i + 1)));
            }
            i = i + 1;
        }
        proof {
            assert(query.deep_view().subrange(0, n as int) =~= query.deep_view());
        }
        u
    }

    /// URL of the song detail operation.
    pub fn song_url(&self, id: &str) -> (r: String)
        ensures
            r@ == url_of(self.base@, "song/"@ + id@, Seq::empty()),
    {
        let mut path = "song/".to_owned();
        path.append(id);
        let q: Vec<(&str, &str)> = Vec::new();
        assert(q.deep_view() =~= Seq::<(Seq<char>, Seq<char>)>::empty());
        self.request_url(path.as_str(), &q)
    }

    /// URL of the full song listing operation.
    pub fn all_songs_url(&self) -> (r: String)
        ensures
            r@ == url_of(self.base@, "songs"@, Seq::empty()),
    {
        let q: Vec<(&str, &str)> = Vec::new();
        assert(q.deep_view() =~= Seq::<(Seq<char>, Seq<char>)>::empty());
        self.request_url("songs", &q)
    }

    /// URL of the album data operation.
    pub fn album_url(&self, id: &str) -> (r: String)
        ensures
            r@ == url_of(self.base@, "album/"@ + id@ + "/data"@, Seq::empty()),
    {
        let mut path = "album/".to_owned();
        path.append(id);
        path.append("/data");
        let q: Vec<(&str, &str)> = Vec::new();
        assert(q.deep_view() =~= Seq::<(Seq<char>, Seq<char>)>::empty());
        self.request_url(path.as_str(), &q)
    }

    /// URL of the album detail operation.
    pub fn album_detail_url(&self, id: &str) -> (r: String)
        ensures
            r@ == url_of(self.base@, "album/"@ + id@ + "/detail"@, Seq::empty()),
    {
        let mut path = "album/".to_owned();
        path.append(id);
        path.append("/detail");
        let q: Vec<(&str, &str)> = Vec::new();
        assert(q.deep_view() =~= Seq::<(Seq<char>, Seq<char>)>::empty());
        self.request_url(path.as_str(), &q)
    }

    /// URL of the full album listing operation.
    pub fn all_albums_url(&self) -> (r: String)
        ensures
            r@ == url_of(self.base@, "albums"@, Seq::empty()),
    {
        let q: Vec<(&str, &str)> = Vec::new();
        assert(q.deep_view() =~= Seq::<(Seq<char>, Seq<char>)>::empty());
        self.request_url("albums", &q)
    }

    /// URL of the news listing operation; the cursor is omitted entirely when
    /// absent.
    pub fn all_news_url(&self, last_cid: Option<&str>) -> (r: String)
        ensures
            r@ == url_of(self.base@, "news"@, cursor_pairs(opt_chars(last_cid))),
    {
        let mut q: Vec<(&str, &str)> = Vec::new();
        if let Some(c) = last_cid {
            q.push(("lastCid", c));
        }
        assert(q.deep_view() =~= cursor_pairs(opt_chars(last_cid)));
        self.request_url("news", &q)
    }

    /// URL of the news detail operation.
    pub fn news_detail_url(&self, id: &str) -> (r: String)
        ensures
            r@ == url_of(self.base@, "news/"@ + id@, Seq::empty()),
    {
        let mut path = "news/".to_owned();
        path.append(id);
        let q: Vec<(&str, &str)> = Vec::new();
        assert(q.deep_view() =~= Seq::<(Seq<char>, Seq<char>)>::empty());
        self.request_url(path.as_str(), &q)
    }

    /// URL of the font set operation.
    pub fn font_url(&self) -> (r: String)
        ensures
            r@ == url_of(self.base@, "fontset"@, Seq::empty()),
    {
        let q: Vec<(&str, &str)> = Vec::new();
        assert(q.deep_view() =~= Seq::<(Seq<char>, Seq<char>)>::empty());
        self.request_url("fontset", &q)
    }

    /// URL of the combined search operation.
    pub fn search_url(&self, keyword: &str) -> (r: String)
        ensures
            r@ == url_of(self.base@, "search"@, keyword_cursor_pairs(keyword@, Option::None)),
    {
        let mut q: Vec<(&str, &str)> = Vec::new();
        q.push(("keyword", keyword));
        assert(q.deep_view() =~= keyword_cursor_pairs(keyword@, Option::None));
        self.request_url("search", &q)
    }

    /// URL of the album search operation; the cursor is omitted entirely when
    /// absent.
    pub fn search_albums_url(&self, keyword: &str, last_cid: Option<&str>) -> (r: String)
        ensures
            r@ == url_of(
                self.base@,
                "search/album"@,
                keyword_cursor_pairs(keyword@, opt_chars(last_cid)),
            ),
    {
        let mut q: Vec<(&str, &str)> = Vec::new();
        q.push(("keyword", keyword));
        if let Some(c) = last_cid {
            q.push(("lastCid", c));
        }
        assert(q.deep_view() =~= keyword_cursor_pairs(keyword@, opt_chars(last_cid)));
        self.request_url("search/album", &q)
    }

    /// URL of the news search operation; the cursor is omitted entirely when
    /// absent.
    pub fn search_news_url(&self, keyword: &str, last_cid: Option<&str>) -> (r: String)
        ensures
            r@ == url_of(
                self.base@,
                "search/news"@,
                keyword_cursor_pairs(keyword@, opt_chars(last_cid)),
            ),
    {
        let mut q: Vec<(&str, &str)> = Vec::new();
        q.push(("keyword", keyword));
        if let Some(c) = last_cid {
            q.push(("lastCid", c));
        }
        assert(q.deep_view() =~= keyword_cursor_pairs(keyword@, opt_chars(last_cid)));
        self.request_url("search/news", &q)
    }
}

/// Stripping leading slashes keeps exactly the suffix from the first
/// character that is not a `'/'`.
proof fn lemma_strip_leading_slashes_suffix(s: Seq<char>, m: int)
    requires
        0 <= m <= s.len(),
        forall|i: int| 0 <= i < m ==> s[i] == '/',
        m == s.len() || s[m] != '/',
    ensures
        strip_leading_slashes(s) == s.subrange(m, s.len() as int),
    decreases s.len(),
{
    if m > 0 {
        assert(s[0] == '/');
        lemma_strip_leading_slashes_suffix(s.drop_first(), m - 1);
        assert(s.drop_first().subrange(m - 1, s.drop_first().len() as int) =~= s.subrange(
            m,
            s.len() as int,
        ));
    } else {
        assert(s.subrange(0, s.len() as int) =~= s);
    }
}

/// Removes every trailing `'/'` from `s`.
pub fn trim_trailing_slashes(s: &str) -> (r: String)
    ensures
        r@ == strip_trailing_slashes(s@),
{
    let len = s.unicode_len();
    let mut n = len;
    while n > 0 && s.get_char(n - 1) == '/'
        invariant
            n <= len,
            len == s@.len(),
            forall|i: int| n <= i < s@.len() ==> s@[i] == '/',
        decreases n,
    {
        n = n - 1;
    }
    proof {
        lemma_strip_trailing_slashes_prefix(s@, n as int);
    }
    s.substring_char(0, n).to_owned()
}

} // verus!
