//! The data model: document identifiers, documents and search results.

pub mod document;
pub mod search;
pub mod timestamp;

pub use document::{Document, DocumentId, DocumentType, DocumentView, Format};
pub use search::{SearchFilter, SearchResult, SearchResultView};
pub use timestamp::Timestamp;
