//! The on-disk cache: where documents are kept, and which file operations
//! keep them there.
//!
//! Nothing in here touches the file system. The cache manager says which
//! files to read, write and delete; the caller does it.

pub mod files;
pub mod metadata;
pub mod storage;

pub use files::{FileAction, FileActionView};
pub use metadata::{CacheMetadata, CacheMetadataView};
pub use storage::{CacheError, CacheManager, CachedDocument, CachedDocumentView, Sidecar};
