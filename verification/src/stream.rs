//! Streams over paged listings: the request of each page and the rule that
//! decides which page comes next.

use vstd::prelude::*;
use crate::client::{Modio, ModioView};
use crate::encoding::{decimal, decimal_string};
use crate::request::{RequestBuilder, RequestView, Route, RouteView};

verus! {

/// The query of the page that starts at `offset`: the listing's query, with
/// `_offset=N` added after a `&` where the query is not empty; the first
/// page (offset zero) is asked for with the listing's query alone.
pub open spec fn page_query(query: Seq<char>, offset: u64) -> Seq<char> {
    if offset == 0 {
        query
    } else if query.len() == 0 {
        "_offset="@ + decimal(offset as nat)
    } else {
        query + "&_offset="@ + decimal(offset as nat)
    }
}

/// The path of a page: the listing's path, and its query after a `?` where
/// that query is not empty.
pub open spec fn page_uri(path: Seq<char>, query: Seq<char>, offset: u64) -> Seq<char> {
    let q = page_query(query, offset);
    if q.len() == 0 {
        path
    } else {
        path + "?"@ + q
    }
}

/// The offset of the page after one that started at `offset`, held `count`
/// items, and reported `total` items in all; none where that page was the
/// last one (it was empty, or it reached the total).
pub open spec fn next_offset_spec(offset: u64, count: u64, total: u64) -> Option<u64> {
    if count > 0 && offset + count < total {
        Some((offset + count) as u64)
    } else {
        None
    }
}

/// A stream over all pages of a listing.
pub struct Stream {
    modio: Modio,
    path: String,
    query: String,
}

pub struct StreamView {
    pub modio: ModioView,
    pub path: Seq<char>,
    pub query: Seq<char>,
}

impl View for Stream {
    type V = StreamView;

    closed spec fn view(&self) -> StreamView {
        StreamView { modio: self.modio@, path: self.path@, query: self.query@ }
    }
}

impl Stream {
    /// A stream over the listing at `path` with the query `query`.
    pub fn new(modio: Modio, path: String, query: String) -> (r: Stream)
        ensures
            r@ == (StreamView { modio: modio@, path: path@, query: query@ }),
    {
        Stream { modio, path, query }
    }

    /// The request of the page that starts at `offset`: a `GET` of the
    /// listing's path with the page's query.
    pub fn page(&self, offset: u64) -> (r: RequestBuilder)
        ensures
            r@ == (RequestView {
                modio: self@.modio,
                route: RouteView::Get(page_uri(self@.path, self@.query, offset)),
                query: None,
                body: None,
            }),
    {
        let mut q = self.query.clone();
        if offset != 0 {
            if q.as_str().is_empty() {
                q = String::from_str("_offset=");
            } else {
                q.append("&_offset=");
            }
            let number = decimal_string(offset);
            q.append(number.as_str());
        }
        let mut uri = self.path.clone();
        if !q.as_str().is_empty() {
            uri.append("?");
            uri.append(q.as_str());
        }
        assert(q@ == page_query(self@.query, offset));
        RequestBuilder::new(self.modio.duplicate(), Route::Get(uri))
    }

    /// The offset of the next page, or none after the last page; see
    /// [`next_offset_spec`].
    pub fn next_offset(offset: u64, count: u64, total: u64) -> (r: Option<u64>)
        ensures
            r == next_offset_spec(offset, count, total),
    {
        if count > 0 && offset < total && count < total - offset {
            Some(offset + count)
        } else {
            None
        }
    }
}

/// Paging moves forward and stays within the total: a next page starts
/// after the current one, at its end, and before the total. So a stream
/// asks for finitely many pages.
pub proof fn lemma_paging_advances(offset: u64, count: u64, total: u64)
    ensures
        next_offset_spec(offset, count, total) matches Some(n) ==> offset < n && n == offset + count && n < total,
        next_offset_spec(offset, count, total) is None ==> count == 0 || offset + count >= total,
{
}

} // verus!
