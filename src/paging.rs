//! Pagination: where the next page of a response is, for the three ways that
//! providers announce it.
use crate::headers::{find_header, has_header, header_text, header_value, text_of, HeaderField};
use crate::resolve::ResponseShape;
use vstd::prelude::*;

verus! {

/// The path and query of a URI as `http::Uri` splits it, if it parses.
pub uninterp spec fn uri_path_and_query(url: Seq<char>) -> Option<Seq<char>>;

/// Relies on `http::Uri::from_maybe_shared` and `Uri::path_and_query`: the
/// path and query of `url`, without scheme and host.
#[verifier::external_body]
fn path_and_query(url: String) -> (r: Option<String>)
    ensures
        text_of(r) == uri_path_and_query(url@),
{
    http::Uri::from_maybe_shared(url).ok().and_then(
        |uri| uri.path_and_query().map(|pq| pq.as_str().to_string()),
    )
}

/// What follows the URI of the next page in a `Link` header.
pub open spec fn next_rel() -> Seq<char> {
    ">; rel=\"next\""@
}

/// `<` at `i`, the first `>` after it at `j` with text between them, and
/// `>; rel="next"` from `j` on.
pub open spec fn link_at(h: Seq<char>, i: int, j: int) -> bool {
    &&& 0 <= i
    &&& i + 1 < j < h.len()
    &&& h[i] == '<'
    &&& h[j] == '>'
    &&& forall|k: int| i < k < j ==> h[k] != '>'
    &&& j + next_rel().len() <= h.len()
    &&& h.subrange(j, j + next_rel().len()) == next_rel()
}

/// The leftmost `<URL>; rel="next"` of a header starts at `i`.
pub open spec fn first_link_at(h: Seq<char>, i: int, j: int) -> bool {
    link_at(h, i, j) && forall|i2: int, j2: int| i2 < i ==> !link_at(h, i2, j2)
}

pub open spec fn has_next_link(h: Seq<char>) -> bool {
    exists|i: int, j: int| first_link_at(h, i, j)
}

/// The URL in the leftmost `<URL>; rel="next"` of a `Link` header.
pub open spec fn next_link_of(h: Seq<char>) -> Option<Seq<char>> {
    if has_next_link(h) {
        let (i, j) = choose|i: int, j: int| first_link_at(h, i, j);
        Some(h.subrange(i + 1, j))
    } else {
        None
    }
}

proof fn lemma_first_link_unique(h: Seq<char>, i: int, j: int, i2: int, j2: int)
    requires
        first_link_at(h, i, j),
        first_link_at(h, i2, j2),
    ensures
        i == i2 && j == j2,
{
    if i < i2 {
        assert(!link_at(h, i, j));
    } else if i2 < i {
        assert(!link_at(h, i2, j2));
    }
    if j < j2 {
        assert(h[j] != '>');
    } else if j2 < j {
        assert(h[j2] != '>');
    }
}

/// Whether `lit` stands in `h` from position `j` on.
fn stands_at(h: &str, n: usize, j: usize, lit: &str) -> (r: bool)
    requires
        n == h@.len(),
        j <= n,
    ensures
        r == (j + lit@.len() <= h@.len() && h@.subrange(j as int, j + lit@.len()) == lit@),
{
    let m = lit.unicode_len();
    if m > n - j {
        return false;
    }
    let mut k: usize = 0;
    while k < m
        invariant
            m == lit@.len(),
            j + m <= n == h@.len(),
            k <= m,
            forall|x: int| 0 <= x < k ==> h@[j + x] == lit@[x],
        decreases m - k,
    {
        if h.get_char(j + k) != lit.get_char(k) {
            assert(h@.subrange(j as int, j + m)[k as int] != lit@[k as int]);
            return false;
        }
        k = k + 1;
    }
    assert(h@.subrange(j as int, j + m) =~= lit@);
    true
}

/// The URL in the leftmost `<URL>; rel="next"` of a `Link` header, as a
/// whole URL.
pub fn next_link_url(header: &str) -> (r: Option<String>)
    ensures
        text_of(r) == next_link_of(header@),
{
    let n = header.unicode_len();
    let rel = ">; rel=\"next\"";
    let ghost h = header@;
    let mut i: usize = 0;
    while i < n
        invariant
            n == h.len(),
            h == header@,
            rel@ == next_rel(),
            i <= n,
            forall|i2: int, j2: int| i2 < i ==> !link_at(h, i2, j2),
        decreases n - i,
    {
        if header.get_char(i) == '<' {
            let mut j: usize = i + 1;
            while j < n && header.get_char(j) != '>'
                invariant
                    n == h.len(),
                    h == header@,
                    i < j <= n,
                    forall|k: int| i < k < j ==> h[k] != '>',
                decreases n - j,
            {
                j = j + 1;
            }
            if j < n && j > i + 1 && stands_at(header, n, j, rel) {
                proof {
                    assert(first_link_at(h, i as int, j as int));
                    let (ci, cj) = choose|ci: int, cj: int| first_link_at(h, ci, cj);
                    lemma_first_link_unique(h, i as int, j as int, ci, cj);
                }
                return Some(String::from_str(header.substring_char(i + 1, j)));
            }
            proof {
                assert forall|j2: int| !link_at(h, i as int, j2) by {
                    if link_at(h, i as int, j2) {
                        if j2 < j {
                            assert(h[j2] != '>');
                        } else if j2 > j {
                            assert(h[j as int] == '>');
                        }
                    }
                }
            }
        }
        i = i + 1;
    }
    proof {
        if has_next_link(h) {
            let (ci, cj) = choose|ci: int, cj: int| first_link_at(h, ci, cj);
            assert(!link_at(h, ci, cj));
        }
    }
    None
}

/// The next page of a GitHub response, as the path and query of its URI: the
/// authenticated client adds its own host.
pub struct GithubNextLink {
    pub next: Option<String>,
}

/// A `Link` header whose value is not text.
pub struct UnreadableLinkHeader;

/// The path of the next page that a `Link` header names.
pub open spec fn link_header_next(h: Seq<char>) -> Option<Seq<char>> {
    match next_link_of(h) {
        Some(url) => uri_path_and_query(url),
        None => None,
    }
}

/// The first `link` header is present but not text.
pub open spec fn link_header_unreadable(hs: Seq<HeaderField>) -> bool {
    has_header(hs, "link"@) && header_text(hs, "link"@) is None
}

impl GithubNextLink {
    /// Takes `url` as it is as the next link.
    pub fn from_str(url: &str) -> (r: GithubNextLink)
        ensures
            text_of(r.next) == Some(url@),
    {
        GithubNextLink { next: Some(String::from_str(url)) }
    }

    /// The next link of a `Link` header as GitHub sends it.
    pub fn from_link_str(header: &str) -> (r: GithubNextLink)
        ensures
            text_of(r.next) == link_header_next(header@),
    {
        let next = match next_link_url(header) {
            Some(url) => path_and_query(url),
            None => None,
        };
        GithubNextLink { next }
    }

    /// The next link of a response: none without a `link` header, an error
    /// where that header is not text.
    pub fn from_response(headers: &Vec<HeaderField>) -> (r: Result<GithubNextLink, UnreadableLinkHeader>)
        ensures
            link_header_unreadable(headers@) <==> r is Err,
            r is Ok ==> text_of(r->Ok_0.next) == match header_text(headers@, "link"@) {
                Some(h) => link_header_next(h),
                None => None,
            },
    {
        match find_header(headers, "link") {
            None => Ok(GithubNextLink { next: None }),
            Some(_) => match header_value(headers, "link") {
                Some(h) => Ok(GithubNextLink::from_link_str(h.as_str())),
                None => Err(UnreadableLinkHeader),
            },
        }
    }
}

/// Azure DevOps paging: the continuation token of a response.
pub struct AdoPaging {
    pub continuation_token: Option<String>,
}

impl AdoPaging {
    /// Reads the `X-MS-ContinuationToken` header as it stands.
    pub fn from_headers(headers: &Vec<HeaderField>) -> (r: AdoPaging)
        ensures
            text_of(r.continuation_token) == header_text(headers@, "X-MS-ContinuationToken"@),
    {
        AdoPaging { continuation_token: header_value(headers, "X-MS-ContinuationToken") }
    }

    pub fn has_more(&self) -> (r: bool)
        ensures
            r == self.continuation_token is Some,
    {
        self.continuation_token.is_some()
    }

    pub fn is_empty(&self) -> (r: bool)
        ensures
            r == self.continuation_token is None,
    {
        self.continuation_token.is_none()
    }

    /// The token, or `NOTOKEN` where there is none.
    pub fn next_token(&self) -> (r: &str)
        ensures
            r@ == match self.continuation_token {
                Some(t) => t@,
                None => "NOTOKEN"@,
            },
    {
        match &self.continuation_token {
            Some(t) => t.as_str(),
            None => "NOTOKEN",
        }
    }
}

/// How a provider announces its next page.
pub enum Pagination {
    /// A `Link` response header with a `rel="next"` URI.
    LinkHeader,
    /// An `X-MS-ContinuationToken` response header, sent back as a request header.
    ContinuationToken,
    /// A next link inside the body, which this library does not follow.
    EmbeddedLink,
}

/// Where the next page is; `None` ends the pagination.
pub struct Cursor {
    pub next: Option<String>,
}

pub enum PagingError {
    /// The `link` header is not text.
    UnreadableLinkHeader,
    /// The body names a next page inside itself. Following it is not
    /// implemented, and dropping it would lose records, so paging stops here.
    NotImplemented { link: String },
}

/// The next position that a strategy reads from a page whose body carries no
/// next link.
pub open spec fn strategy_next(p: Pagination, hs: Seq<HeaderField>) -> Option<Seq<char>> {
    match p {
        Pagination::LinkHeader => match header_text(hs, "link"@) {
            Some(h) => link_header_next(h),
            None => None,
        },
        Pagination::ContinuationToken => header_text(hs, "X-MS-ContinuationToken"@),
        Pagination::EmbeddedLink => None,
    }
}

/// Whether a strategy fails on a page whose body carries no next link.
pub open spec fn strategy_fails(p: Pagination, hs: Seq<HeaderField>) -> bool {
    p is LinkHeader && link_header_unreadable(hs)
}

impl Pagination {
    /// The cursor after one page. A next link in the body stops paging with
    /// `NotImplemented`, whatever the strategy.
    pub fn next_cursor(&self, headers: &Vec<HeaderField>, shape: &ResponseShape) -> (r: Result<
        Cursor,
        PagingError,
    >)
        ensures
            match shape.spec_next_link() {
                Some(l) => r is Err && r->Err_0 is NotImplemented && r->Err_0->link@ == l,
                None => if strategy_fails(*self, headers@) {
                    r is Err && r->Err_0 is UnreadableLinkHeader
                } else {
                    r is Ok && text_of(r->Ok_0.next) == strategy_next(*self, headers@)
                },
            },
    {
        if let Some(link) = shape.next_link() {
            return Err(PagingError::NotImplemented { link });
        }
        match self {
            Pagination::LinkHeader => match GithubNextLink::from_response(headers) {
                Ok(l) => Ok(Cursor { next: l.next }),
                Err(_) => Err(PagingError::UnreadableLinkHeader),
            },
            Pagination::ContinuationToken => Ok(
                Cursor { next: AdoPaging::from_headers(headers).continuation_token },
            ),
            Pagination::EmbeddedLink => Ok(Cursor { next: None }),
        }
    }
}

} // verus!
