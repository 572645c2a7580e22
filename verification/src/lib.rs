//! Looking up, fetching and caching IETF documents: RFCs and
//! Internet-Drafts.
//!
//! The crate holds the rules and leaves the acting to its caller. It parses
//! what a user calls a document, lays out the cache directory and plans the
//! file operations on it, builds the query for the Datatracker's document
//! index and makes a search result of the answer, and drives the fetching
//! of a document step by step. It never opens a file or a connection
//! itself.

pub mod api;
pub mod cache;
pub mod models;
pub mod pipeline;
pub mod report;
pub mod text;
pub mod viewer;

pub use api::datatracker::{
    convert_api_document, document_from_api, is_rfc_or_draft, parse_doc_type, search_result,
    search_url, ApiDocument, SearchMeta, SearchResponse, DATATRACKER_BASE_URL,
};
pub use cache::{
    CacheError, CacheManager, CacheMetadata, CachedDocument, FileAction, Sidecar,
};
pub use models::document::{classify_text, parse_document};
pub use models::{Document, DocumentType, Format, SearchFilter, SearchResult, Timestamp};
pub use report::truncate_title;
