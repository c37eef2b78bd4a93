//! One logical fetch: the decisions between the round trips of a paginated
//! request. The caller performs each request that `next_request` names and
//! hands the page back to `absorb`; the fetch ends when no request is left.
use crate::headers::{text_of, RawPage};
use crate::json::parsed;
use crate::paging::{strategy_fails, strategy_next, Pagination, PagingError};
use crate::resolve::{
    body_text, embedded_link, is_collection, parse_body, resolved_items, snippet_of, ParseError,
    ResponseShape,
};
use vstd::prelude::*;

verus! {

/// A request for the fetch collaborator: a path, and for token paging the
/// token to send as the `X-MS-ContinuationToken` request header.
pub struct Request {
    pub path: String,
    pub continuation_token: Option<String>,
}

pub enum FetchError {
    /// The body of a page is not JSON.
    Parse(ParseError),
    /// The page's next position cannot be followed.
    Paging(PagingError),
}

/// The state of a logical fetch.
pub struct Fetch {
    pagination: Pagination,
    path: String,
    next: Option<Request>,
    items: Vec<serde_json::Value>,
    statuses: Vec<u16>,
}

pub struct FetchView {
    pub pagination: Pagination,
    pub path: Seq<char>,
    pub next: Option<(Seq<char>, Option<Seq<char>>)>,
    pub items: Seq<serde_json::Value>,
    pub statuses: Seq<u16>,
}

pub open spec fn request_view(r: Option<Request>) -> Option<(Seq<char>, Option<Seq<char>>)> {
    match r {
        Some(q) => Some((q.path@, text_of(q.continuation_token))),
        None => None,
    }
}

/// The request that a cursor position leads to: a link is the next path; a
/// token goes back with the first path.
pub open spec fn request_for(p: Pagination, path: Seq<char>, next: Option<Seq<char>>) -> Option<
    (Seq<char>, Option<Seq<char>>),
> {
    match next {
        None => None,
        Some(n) => match p {
            Pagination::ContinuationToken => Some((path, Some(n))),
            _ => Some((n, None)),
        },
    }
}

impl View for Fetch {
    type V = FetchView;

    closed spec fn view(&self) -> FetchView {
        FetchView {
            pagination: self.pagination,
            path: self.path@,
            next: request_view(self.next),
            items: self.items@,
            statuses: self.statuses@,
        }
    }
}

impl Fetch {
    /// A fetch whose first request is `path`.
    pub fn new(pagination: Pagination, path: &str) -> (r: Fetch)
        ensures
            r@.pagination == pagination,
            r@.path == path@,
            r@.next == Some((path@, None::<Seq<char>>)),
            r@.items.len() == 0,
            r@.statuses.len() == 0,
    {
        Fetch {
            pagination,
            path: String::from_str(path),
            next: Some(Request { path: String::from_str(path), continuation_token: None }),
            items: Vec::new(),
            statuses: Vec::new(),
        }
    }

    /// The request to perform next; `None` once pagination has ended.
    pub fn next_request(&self) -> (r: Option<Request>)
        ensures
            request_view(r) == self@.next,
    {
        match &self.next {
            Some(q) => Some(
                Request {
                    path: q.path.clone(),
                    continuation_token: match &q.continuation_token {
                        Some(t) => Some(t.clone()),
                        None => None,
                    },
                },
            ),
            None => None,
        }
    }

    pub fn is_done(&self) -> (r: bool)
        ensures
            r == (self@.next is None),
    {
        self.next.is_none()
    }

    /// Takes in one page: its records, its status and the request after it. A
    /// page that fails leaves the fetch as it was.
    pub fn absorb(&mut self, page: RawPage) -> (r: Result<(), FetchError>)
        ensures
            match parsed(body_text(page.body@)) {
                None => r is Err && r->Err_0 is Parse && r->Err_0->Parse_0.snippet@ == snippet_of(
                    page.body@,
                ) && final(self)@ == old(self)@,
                Some(v) => if is_collection(v) && embedded_link(v) is Some {
                    r is Err && r->Err_0 is Paging && r->Err_0->Paging_0 is NotImplemented
                        && final(self)@ == old(self)@
                } else if strategy_fails(old(self)@.pagination, page.headers@) {
                    r is Err && r->Err_0 is Paging && r->Err_0->Paging_0 is UnreadableLinkHeader
                        && final(self)@ == old(self)@
                } else {
                    &&& r is Ok
                    &&& final(self)@.pagination == old(self)@.pagination
                    &&& final(self)@.path == old(self)@.path
                    &&& final(self)@.items == old(self)@.items + resolved_items(v)
                    &&& final(self)@.statuses == old(self)@.statuses.push(page.status)
                    &&& final(self)@.next == request_for(
                        old(self)@.pagination,
                        old(self)@.path,
                        strategy_next(old(self)@.pagination, page.headers@),
                    )
                },
            },
    {
        let body = match parse_body(page.body.as_str()) {
            Ok(v) => v,
            Err(e) => return Err(FetchError::Parse(e)),
        };
        let shape = ResponseShape::resolve(body);
        let cursor = match self.pagination.next_cursor(&page.headers, &shape) {
            Ok(c) => c,
            Err(e) => return Err(FetchError::Paging(e)),
        };
        let mut items = shape.items();
        self.items.append(&mut items);
        self.statuses.push(page.status);
        self.next = match cursor.next {
            None => None,
            Some(n) => match self.pagination {
                Pagination::ContinuationToken => Some(
                    Request { path: self.path.clone(), continuation_token: Some(n) },
                ),
                _ => Some(Request { path: n, continuation_token: None }),
            },
        };
        Ok(())
    }

    /// The records of all pages taken in so far, in page order.
    pub fn into_items(self) -> (r: Vec<serde_json::Value>)
        ensures
            r@ == self@.items,
    {
        self.items
    }

    /// The status of each page taken in so far.
    pub fn statuses(&self) -> (r: &Vec<u16>)
        ensures
            r@ == self@.statuses,
    {
        &self.statuses
    }
}

} // verus!
