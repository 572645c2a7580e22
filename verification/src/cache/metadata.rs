//! The record kept beside a cached document.

use vstd::prelude::*;
use crate::models::timestamp::Timestamp;

verus! {

/// Metadata associated with a cached document
#[derive(Debug)]
pub struct CacheMetadata {
    /// Document title
    pub title: String,
    /// When the document was cached
    pub cached_at: Timestamp,
}

/// What a [`CacheMetadata`] holds, as mathematical values.
pub struct CacheMetadataView {
    pub title: Seq<char>,
    pub cached_at: Timestamp,
}

impl View for CacheMetadata {
    type V = CacheMetadataView;

    open spec fn view(&self) -> CacheMetadataView {
        CacheMetadataView { title: self.title@, cached_at: self.cached_at }
    }
}

impl DeepView for CacheMetadata {
    type V = CacheMetadataView;

    open spec fn deep_view(&self) -> CacheMetadataView {
        self@
    }
}

impl Clone for CacheMetadata {
    fn clone(&self) -> (r: Self)
        ensures
            r@ == self@,
    {
        CacheMetadata { title: self.title.clone(), cached_at: self.cached_at }
    }
}

} // verus!
