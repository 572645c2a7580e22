use std::collections::{BTreeMap, BTreeSet};

use rfc::cache::storage::file_stem;
use rfc::{
    CacheError, CacheManager, CacheMetadata, CachedDocument, DocumentType, FileAction, Format,
    Sidecar, Timestamp,
};

/// A directory tree held in memory, on which the cache's file operations
/// are carried out.
struct Disk {
    files: BTreeMap<String, String>,
    dirs: BTreeSet<String>,
}

impl Disk {
    fn new() -> Self {
        Disk { files: BTreeMap::new(), dirs: BTreeSet::new() }
    }

    fn perform(&mut self, actions: Vec<FileAction>) {
        for action in actions {
            match action {
                FileAction::CreateDirAll { path } => {
                    self.dirs.insert(path);
                }
                FileAction::Write { path, content } => {
                    self.files.insert(path, content);
                }
                FileAction::RemoveFile { path } => {
                    assert!(self.files.remove(&path).is_some(), "no such file: {}", path);
                }
                FileAction::RemoveDirAll { path } => {
                    assert!(self.dirs.contains(&path), "no such directory: {}", path);
                    let below = format!("{}/", path);
                    self.files.retain(|file, _| !file.starts_with(&below));
                    self.dirs.retain(|dir| *dir != path && !dir.starts_with(&below));
                }
            }
        }
    }

    fn read(&self, path: &str) -> Option<String> {
        self.files.get(path).cloned()
    }

    fn has_file(&self, path: &str) -> bool {
        self.files.contains_key(path)
    }

    fn file_names(&self, dir: &str) -> Vec<String> {
        let below = format!("{}/", dir);
        self.files
            .keys()
            .filter_map(|path| path.strip_prefix(&below))
            .filter(|name| !name.contains('/'))
            .map(|name| name.to_string())
            .collect()
    }
}

fn to_record(meta: &CacheMetadata) -> String {
    let at = chrono::DateTime::from_timestamp(meta.cached_at.secs, meta.cached_at.nanos).unwrap();
    let mut record = serde_json::Map::new();
    record.insert("title".to_string(), serde_json::Value::String(meta.title.clone()));
    record.insert("cached_at".to_string(), serde_json::Value::String(at.to_rfc3339()));
    serde_json::to_string_pretty(&serde_json::Value::Object(record)).unwrap()
}

fn from_record(text: &str) -> Option<CacheMetadata> {
    let record: serde_json::Value = serde_json::from_str(text).ok()?;
    let title = record.get("title")?.as_str()?.to_string();
    let at = chrono::DateTime::parse_from_rfc3339(record.get("cached_at")?.as_str()?).ok()?;
    Some(CacheMetadata {
        title,
        cached_at: Timestamp { secs: at.timestamp(), nanos: at.timestamp_subsec_nanos() },
    })
}

fn now() -> Timestamp {
    let at = chrono::Utc::now();
    Timestamp { secs: at.timestamp(), nanos: at.timestamp_subsec_nanos() }
}

/// A cache over a directory in memory: what the program does with the file
/// system, done with a map.
struct TestCache {
    cache: CacheManager,
    disk: Disk,
}

impl TestCache {
    fn store_document(&mut self, doc: &DocumentType, format: Format, content: &str) {
        self.disk.perform(self.cache.store_document(doc, format, content));
    }

    fn get_document(&self, doc: &DocumentType, format: Format) -> Option<String> {
        self.disk.read(&self.cache.document_path(doc, format))
    }

    fn store_metadata(&mut self, doc: &DocumentType, meta: &CacheMetadata) {
        self.disk.perform(self.cache.store_metadata(doc, &to_record(meta)));
    }

    fn get_metadata(&self, doc: &DocumentType) -> Option<CacheMetadata> {
        from_record(&self.disk.read(&self.cache.metadata_path(doc))?)
    }

    fn remove(&mut self, doc: &DocumentType) -> bool {
        let (actions, removed) = self.cache.remove(
            doc,
            self.disk.has_file(&self.cache.document_path(doc, Format::Html)),
            self.disk.has_file(&self.cache.document_path(doc, Format::Text)),
            self.disk.has_file(&self.cache.metadata_path(doc)),
        );
        self.disk.perform(actions);
        removed
    }

    fn clear_cache(&mut self) {
        let exists = self.disk.dirs.contains(self.cache.cache_dir());
        self.disk.perform(self.cache.clear_cache(exists));
    }

    fn list_cached(&self) -> Vec<DocumentType> {
        self.cache.list_cached(&self.disk.file_names(&self.cache.documents_dir()))
    }

    fn list_cached_with_metadata(&self) -> Vec<CachedDocument> {
        let names = self.disk.file_names(&self.cache.documents_dir());
        let mut sidecars = Vec::new();
        for name in &names {
            if name.ends_with(".meta") {
                let path = format!("{}/{}", self.cache.documents_dir(), name);
                if let Some(metadata) = from_record(&self.disk.read(&path).unwrap()) {
                    sidecars.push(Sidecar { file_name: name.clone(), metadata });
                }
            }
        }
        self.cache.list_cached_with_metadata(&names, &sidecars)
    }
}

fn test_cache() -> TestCache {
    let cache = CacheManager::with_dir("/tmp/cache".to_string());
    let mut disk = Disk::new();
    disk.perform(vec![cache.create_dir()]);
    TestCache { cache, disk }
}

#[test]
fn test_store_and_retrieve() {
    let mut cache = test_cache();
    let doc = DocumentType::Rfc(9000);
    let content = "<html>Test content</html>";

    cache.store_document(&doc, Format::Html, content);

    let retrieved = cache.get_document(&doc, Format::Html);
    assert_eq!(retrieved, Some(content.to_string()));
}

#[test]
fn test_list_cached() {
    let mut cache = test_cache();

    cache.store_document(&DocumentType::Rfc(9000), Format::Html, "test");
    cache.store_document(&DocumentType::Rfc(8200), Format::Text, "test");

    let cached = cache.list_cached();
    assert_eq!(cached.len(), 2);
}

#[test]
fn test_clear_cache() {
    let mut cache = test_cache();
    let doc = DocumentType::Rfc(9000);

    cache.store_document(&doc, Format::Html, "test");
    assert!(cache.get_document(&doc, Format::Html).is_some());

    cache.clear_cache();
    assert!(cache.get_document(&doc, Format::Html).is_none());
}

#[test]
fn test_remove_document() {
    let mut cache = test_cache();
    let doc = DocumentType::Rfc(9000);

    // Remove non-existent returns false
    assert!(!cache.remove(&doc));

    // Store both formats and metadata, then remove
    cache.store_document(&doc, Format::Html, "html content");
    cache.store_document(&doc, Format::Text, "text content");

    let meta = CacheMetadata { title: "Test Title".to_string(), cached_at: now() };
    cache.store_metadata(&doc, &meta);

    assert!(cache.remove(&doc));

    // Verify both formats and metadata are gone
    assert!(cache.get_document(&doc, Format::Html).is_none());
    assert!(cache.get_document(&doc, Format::Text).is_none());
    assert!(cache.get_metadata(&doc).is_none());

    // Second remove returns false
    assert!(!cache.remove(&doc));
}

#[test]
fn test_remove_partial_formats() {
    let mut cache = test_cache();
    let doc = DocumentType::Rfc(8000);

    // Store only HTML
    cache.store_document(&doc, Format::Html, "html only");

    // Remove should succeed and return true
    assert!(cache.remove(&doc));
    assert!(cache.get_document(&doc, Format::Html).is_none());
}

#[test]
fn test_list_cached_with_drafts() {
    let mut cache = test_cache();

    let draft = DocumentType::Draft("draft-ietf-quic-transport-34".to_string());
    cache.store_document(&draft, Format::Text, "test");

    let cached = cache.list_cached();
    assert_eq!(cached.len(), 1);
    assert!(cached.contains(&draft));
}

#[test]
fn test_store_and_retrieve_metadata() {
    let mut cache = test_cache();
    let doc = DocumentType::Rfc(9000);
    let meta = CacheMetadata {
        title: "QUIC: A UDP-Based Multiplexed and Secure Transport".to_string(),
        cached_at: now(),
    };

    cache.store_metadata(&doc, &meta);

    let retrieved = cache.get_metadata(&doc);
    assert!(retrieved.is_some());
    let retrieved = retrieved.unwrap();
    assert_eq!(retrieved.title, meta.title);
}

#[test]
fn test_list_cached_with_metadata() {
    let mut cache = test_cache();

    let doc1 = DocumentType::Rfc(9000);
    let doc2 = DocumentType::Rfc(8200);

    cache.store_document(&doc1, Format::Text, "test");
    cache.store_document(&doc2, Format::Text, "test");

    let meta1 = CacheMetadata { title: "QUIC Transport".to_string(), cached_at: now() };
    cache.store_metadata(&doc1, &meta1);

    let cached = cache.list_cached_with_metadata();
    assert_eq!(cached.len(), 2);

    // doc1 has metadata
    let cached_doc1 = cached.iter().find(|cd| cd.doc_type == doc1).unwrap();
    assert!(cached_doc1.metadata.is_some());

    // doc2 doesn't have metadata
    let cached_doc2 = cached.iter().find(|cd| cd.doc_type == doc2).unwrap();
    assert!(cached_doc2.metadata.is_none());
}

#[test]
fn test_metadata_missing() {
    let mut cache = test_cache();
    let doc = DocumentType::Rfc(9000);

    cache.store_document(&doc, Format::Text, "test");

    // Should return None for missing metadata
    assert!(cache.get_metadata(&doc).is_none());
}

#[test]
fn test_metadata_integration() {
    let mut cache = test_cache();

    // Create test documents
    let doc1 = DocumentType::Rfc(4271);
    let doc2 = DocumentType::Rfc(9000);
    let doc3 = DocumentType::Rfc(8200);

    // Store documents
    cache.store_document(&doc1, Format::Text, "BGP content");
    cache.store_document(&doc2, Format::Text, "QUIC content");
    cache.store_document(&doc3, Format::Text, "IPv6 content");

    // Store metadata for doc1 and doc2 only
    let meta1 = CacheMetadata {
        title: "A Border Gateway Protocol 4 (BGP-4)".to_string(),
        cached_at: now(),
    };
    cache.store_metadata(&doc1, &meta1);

    let meta2 = CacheMetadata {
        title: "QUIC: A UDP-Based Multiplexed and Secure Transport".to_string(),
        cached_at: now(),
    };
    cache.store_metadata(&doc2, &meta2);

    // List with metadata
    let cached = cache.list_cached_with_metadata();

    // Should have all 3 documents
    assert_eq!(cached.len(), 3);

    // Find each document and verify metadata
    let cached_doc1 = cached.iter().find(|cd| cd.doc_type == doc1).unwrap();
    assert!(cached_doc1.metadata.is_some());
    assert_eq!(cached_doc1.metadata.as_ref().unwrap().title, meta1.title);

    let cached_doc2 = cached.iter().find(|cd| cd.doc_type == doc2).unwrap();
    assert!(cached_doc2.metadata.is_some());
    assert_eq!(cached_doc2.metadata.as_ref().unwrap().title, meta2.title);

    let cached_doc3 = cached.iter().find(|cd| cd.doc_type == doc3).unwrap();
    assert!(cached_doc3.metadata.is_none());
}

#[test]
fn test_put_text_then_get() {
    let mut cache = test_cache();
    let doc = DocumentType::Rfc(9000);

    cache.store_document(&doc, Format::Text, "x");

    assert_eq!(cache.get_document(&doc, Format::Text), Some("x".to_string()));
    assert_eq!(cache.get_document(&doc, Format::Html), None);
}

#[test]
fn test_put_overwrites() {
    let mut cache = test_cache();
    let doc = DocumentType::Draft("draft-ietf-quic-transport-34".to_string());

    cache.store_document(&doc, Format::Text, "old");
    cache.store_document(&doc, Format::Text, "new");

    assert_eq!(cache.get_document(&doc, Format::Text), Some("new".to_string()));
}

#[test]
fn test_remove_twice() {
    let mut cache = test_cache();
    let doc = DocumentType::Rfc(2119);

    cache.store_document(&doc, Format::Text, "text");
    assert!(cache.remove(&doc));
    assert!(!cache.remove(&doc));
    assert!(!cache.remove(&doc));
}

#[test]
fn test_remove_metadata_only() {
    let mut cache = test_cache();
    let doc = DocumentType::Rfc(2119);
    let meta = CacheMetadata { title: "Key words".to_string(), cached_at: now() };

    cache.store_metadata(&doc, &meta);

    // Metadata alone does not count as a cached document, but it is deleted.
    assert!(!cache.remove(&doc));
    assert!(cache.get_metadata(&doc).is_none());
}

#[test]
fn test_remove_leaves_other_documents() {
    let mut cache = test_cache();
    let doc = DocumentType::Rfc(9000);
    let other = DocumentType::Rfc(9001);

    cache.store_document(&doc, Format::Text, "one");
    cache.store_document(&other, Format::Text, "two");
    assert!(cache.remove(&doc));

    assert_eq!(cache.get_document(&other, Format::Text), Some("two".to_string()));
}

#[test]
fn test_remove_plan() {
    let cache = CacheManager::with_dir("/c".to_string());
    let doc = DocumentType::Rfc(1);

    let (actions, removed) = cache.remove(&doc, true, true, true);
    assert!(removed);
    let paths: Vec<String> = actions
        .into_iter()
        .map(|action| match action {
            FileAction::RemoveFile { path } => path,
            other => panic!("unexpected action: {:?}", other),
        })
        .collect();
    assert_eq!(
        paths,
        vec![
            "/c/documents/rfc1.html".to_string(),
            "/c/documents/rfc1.txt".to_string(),
            "/c/documents/rfc1.meta".to_string(),
        ]
    );

    let (actions, removed) = cache.remove(&doc, false, false, false);
    assert!(!removed);
    assert!(actions.is_empty());
}

#[test]
fn test_list_two_formats_once() {
    let mut cache = test_cache();
    let doc = DocumentType::Rfc(9000);

    cache.store_document(&doc, Format::Text, "text");
    cache.store_document(&doc, Format::Html, "html");

    assert_eq!(cache.list_cached(), vec![DocumentType::Rfc(9000)]);
}

#[test]
fn test_list_skips_unparseable_names() {
    let cache = CacheManager::with_dir("/c".to_string());
    let names = vec![
        "notes.txt".to_string(),
        "rfc9000.txt".to_string(),
        "README".to_string(),
        "draft-ietf-x-01.html".to_string(),
        "rfc9000.meta".to_string(),
        ".hidden".to_string(),
    ];

    assert_eq!(
        cache.list_cached(&names),
        vec![DocumentType::Rfc(9000), DocumentType::Draft("draft-ietf-x-01".to_string())]
    );
}

#[test]
fn test_list_with_metadata_for_one_of_two() {
    let mut cache = test_cache();
    let doc1 = DocumentType::Rfc(9000);
    let doc2 = DocumentType::Draft("draft-ietf-quic-transport-34".to_string());

    cache.store_document(&doc1, Format::Text, "one");
    cache.store_document(&doc2, Format::Text, "two");
    let meta = CacheMetadata { title: "QUIC".to_string(), cached_at: now() };
    cache.store_metadata(&doc2, &meta);

    let cached = cache.list_cached_with_metadata();
    assert_eq!(cached.len(), 2);
    assert_eq!(cached.iter().filter(|cd| cd.metadata.is_some()).count(), 1);
    let with = cached.iter().find(|cd| cd.doc_type == doc2).unwrap();
    assert_eq!(with.metadata.as_ref().unwrap().title, "QUIC");
    assert_eq!(with.metadata.as_ref().unwrap().cached_at, meta.cached_at);
}

#[test]
fn test_paths() {
    let cache = CacheManager::with_dir("/home/u/.cache/rfc".to_string());
    assert_eq!(cache.cache_dir(), "/home/u/.cache/rfc");
    assert_eq!(cache.documents_dir(), "/home/u/.cache/rfc/documents");
    assert_eq!(
        cache.document_path(&DocumentType::Rfc(9000), Format::Text),
        "/home/u/.cache/rfc/documents/rfc9000.txt"
    );
    assert_eq!(
        cache.document_path(&DocumentType::Rfc(9000), Format::Html),
        "/home/u/.cache/rfc/documents/rfc9000.html"
    );
    assert_eq!(
        cache.metadata_path(&DocumentType::Draft("draft-ietf-x-01".to_string())),
        "/home/u/.cache/rfc/documents/draft-ietf-x-01.meta"
    );
}

#[test]
fn test_store_plan() {
    let cache = CacheManager::with_dir("/c".to_string());
    let actions = cache.store_document(&DocumentType::Rfc(7), Format::Text, "seven");
    assert_eq!(actions.len(), 2);
    assert!(matches!(&actions[0], FileAction::CreateDirAll { path } if path == "/c/documents"));
    assert!(matches!(
        &actions[1],
        FileAction::Write { path, content } if path == "/c/documents/rfc7.txt" && content == "seven"
    ));
}

#[test]
fn test_clear_plan() {
    let cache = CacheManager::with_dir("/c".to_string());
    let actions = cache.clear_cache(false);
    assert_eq!(actions.len(), 1);
    assert!(matches!(&actions[0], FileAction::CreateDirAll { path } if path == "/c"));
    let actions = cache.clear_cache(true);
    assert_eq!(actions.len(), 2);
    assert!(matches!(&actions[0], FileAction::RemoveDirAll { path } if path == "/c"));
    assert!(matches!(&actions[1], FileAction::CreateDirAll { path } if path == "/c"));
    assert!(matches!(cache.create_dir(), FileAction::CreateDirAll { path } if path == "/c"));
}

#[test]
fn test_clear_recreates_missing_root() {
    let mut cache = test_cache();
    // The cache directory is removed from outside.
    cache.disk.dirs.clear();
    assert!(!cache.disk.dirs.contains("/tmp/cache"));

    cache.clear_cache();

    assert!(cache.disk.dirs.contains("/tmp/cache"));
    assert!(cache.disk.file_names("/tmp/cache").is_empty());
    assert!(cache.list_cached().is_empty());
}

#[test]
fn test_clear_leaves_empty_root() {
    let mut cache = test_cache();
    cache.store_document(&DocumentType::Rfc(1), Format::Text, "one");
    cache.store_document(&DocumentType::Rfc(2), Format::Html, "two");

    cache.clear_cache();

    assert!(cache.disk.dirs.contains("/tmp/cache"));
    assert!(cache.disk.files.is_empty());
    assert!(cache.list_cached().is_empty());
}

#[test]
fn test_default_cache_dir() {
    assert_eq!(
        CacheManager::default_cache_dir(Some("/x/cache/rfc".to_string()), Some("/h".to_string())),
        Ok("/x/cache/rfc".to_string())
    );
    assert_eq!(
        CacheManager::default_cache_dir(None, Some("/home/u".to_string())),
        Ok("/home/u/.cache/rfc".to_string())
    );
    assert_eq!(CacheManager::default_cache_dir(None, None), Err(CacheError::HomeNotSet));
    assert_eq!(CacheError::HomeNotSet.message(), "HOME not set");
    assert!(CacheManager::new(None, None).is_err());
    assert_eq!(CacheManager::new(None, Some("/h".to_string())).unwrap().cache_dir(), "/h/.cache/rfc");
}

#[test]
fn test_file_stem() {
    for name in [
        "rfc9000.txt",
        "rfc9000.html",
        "rfc9000.meta",
        "draft-ietf-quic-transport-34.txt",
        "draft.with.dots.txt",
        "README",
        ".hidden",
        ".hidden.txt",
        "trailing.",
        "",
        "a.b",
        "é.txt",
    ] {
        let expected = std::path::Path::new(name)
            .file_stem()
            .map(|stem| stem.to_str().unwrap())
            .unwrap_or("");
        assert_eq!(file_stem(name), expected, "stem of {:?}", name);
    }
    assert_eq!(file_stem("rfc9000.txt"), "rfc9000");
    assert_eq!(file_stem(".hidden"), ".hidden");
    assert_eq!(file_stem("a.b.c"), "a.b");
}
