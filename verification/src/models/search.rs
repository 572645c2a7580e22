//! Search filters and results.

use vstd::prelude::*;
use crate::models::document::{Document, DocumentView};

verus! {

/// Filter for search results
#[derive(Debug, Clone, Copy, PartialEq, Eq, Structural)]
pub enum SearchFilter {
    /// Only return RFCs
    RfcsOnly,
    /// Only return Internet-Drafts
    DraftsOnly,
    /// Return both RFCs and drafts
    Both,
}

impl Default for SearchFilter {
    fn default() -> (r: Self)
        ensures
            r == SearchFilter::Both,
    {
        SearchFilter::Both
    }
}

impl SearchFilter {
    /// The value of the index's `type` parameter that this filter asks for.
    pub open spec fn api_param_spec(self) -> Option<Seq<char>> {
        match self {
            SearchFilter::RfcsOnly => Some("rfc"@),
            SearchFilter::DraftsOnly => Some("draft"@),
            SearchFilter::Both => None,
        }
    }

    /// Get the API parameter value for this filter
    pub fn api_param(&self) -> (r: Option<&'static str>)
        ensures
            r.deep_view() == self.api_param_spec(),
    {
        match self {
            SearchFilter::RfcsOnly => Some("rfc"),
            SearchFilter::DraftsOnly => Some("draft"),
            SearchFilter::Both => None,
        }
    }
}

/// Search results from the API
#[derive(Debug, Clone)]
pub struct SearchResult {
    /// List of matching documents
    pub documents: Vec<Document>,
    /// Whether there are more results available
    pub has_more: bool,
    /// Total number of matching documents available (from API)
    pub total_count: Option<u32>,
    /// The query that produced these results
    pub query: String,
    /// The filter that was applied
    pub filter: SearchFilter,
}

/// What a [`SearchResult`] holds, as mathematical values.
pub struct SearchResultView {
    pub documents: Seq<DocumentView>,
    pub has_more: bool,
    pub total_count: Option<u32>,
    pub query: Seq<char>,
    pub filter: SearchFilter,
}

impl View for SearchResult {
    type V = SearchResultView;

    open spec fn view(&self) -> SearchResultView {
        SearchResultView {
            documents: self.documents.deep_view(),
            has_more: self.has_more,
            total_count: self.total_count,
            query: self.query@,
            filter: self.filter,
        }
    }
}

impl Default for SearchResult {
    fn default() -> (r: Self)
        ensures
            r@ == (SearchResultView {
                documents: Seq::empty(),
                has_more: false,
                total_count: None,
                query: Seq::empty(),
                filter: SearchFilter::Both,
            }),
    {
        let r = SearchResult {
            documents: Vec::new(),
            has_more: false,
            total_count: None,
            query: String::new(),
            filter: SearchFilter::Both,
        };
        assert(r.documents.deep_view() =~= Seq::<DocumentView>::empty());
        r
    }
}

impl SearchResult {
    /// Create an empty search result
    pub fn empty(query: String, filter: SearchFilter) -> (r: Self)
        ensures
            r@ == (SearchResultView {
                documents: Seq::empty(),
                has_more: false,
                total_count: None,
                query: query@,
                filter,
            }),
    {
        let r = Self { documents: Vec::new(), has_more: false, total_count: None, query, filter };
        assert(r.documents.deep_view() =~= Seq::<DocumentView>::empty());
        r
    }

    /// Check if this result set is empty
    #[must_use]
    pub fn is_empty(&self) -> (r: bool)
        ensures
            r == (self@.documents.len() == 0),
    {
        self.documents.len() == 0
    }

    /// Get the number of documents in this result set
    #[must_use]
    pub fn len(&self) -> (r: usize)
        ensures
            r == self@.documents.len(),
    {
        self.documents.len()
    }
}

} // verus!
