//! The cache manager: the layout of the cache directory and the plans for
//! storing, listing and removing documents.

use vstd::prelude::*;
use vstd::string::StringExecFns;
use crate::cache::files::{run, FileAction, FileActionView};
use crate::cache::metadata::{CacheMetadata, CacheMetadataView};
use crate::models::document::{parse_spec, DocumentId, DocumentType, Format};
use crate::text::whitespace::chars_of;

verus! {

/// A cached document with optional metadata
#[derive(Debug, Clone)]
pub struct CachedDocument {
    pub doc_type: DocumentType,
    pub metadata: Option<CacheMetadata>,
}

/// What a [`CachedDocument`] holds, as mathematical values.
pub struct CachedDocumentView {
    pub doc_type: DocumentId,
    pub metadata: Option<CacheMetadataView>,
}

impl View for CachedDocument {
    type V = CachedDocumentView;

    open spec fn view(&self) -> CachedDocumentView {
        CachedDocumentView { doc_type: self.doc_type@, metadata: self.metadata.deep_view() }
    }
}

impl DeepView for CachedDocument {
    type V = CachedDocumentView;

    open spec fn deep_view(&self) -> CachedDocumentView {
        self@
    }
}

/// A metadata record that was read from the documents directory, with the
/// name of the file it was read from.
#[derive(Debug)]
pub struct Sidecar {
    pub file_name: String,
    pub metadata: CacheMetadata,
}

/// What a [`Sidecar`] holds, as mathematical values.
pub struct SidecarView {
    pub file_name: Seq<char>,
    pub metadata: CacheMetadataView,
}

impl View for Sidecar {
    type V = SidecarView;

    open spec fn view(&self) -> SidecarView {
        SidecarView { file_name: self.file_name@, metadata: self.metadata@ }
    }
}

impl DeepView for Sidecar {
    type V = SidecarView;

    open spec fn deep_view(&self) -> SidecarView {
        self@
    }
}

/// Why no cache directory could be named.
#[derive(Debug, Clone, Copy, PartialEq, Eq, Structural)]
pub enum CacheError {
    /// The platform names no cache directory and no home directory is known.
    HomeNotSet,
}

impl CacheError {
    /// The error in words.
    pub fn message(&self) -> (r: String)
        ensures
            r@ == "HOME not set"@,
    {
        String::from_str("HOME not set")
    }
}

/// The name of the file that holds `doc` in the given format.
pub open spec fn document_file_name(doc: DocumentId, format: Format) -> Seq<char> {
    doc.name() + "."@ + format.extension_spec()
}

/// The name of the file that holds the metadata of `doc`.
pub open spec fn metadata_file_name(doc: DocumentId) -> Seq<char> {
    doc.name() + ".meta"@
}

/// The directory under the cache directory `root` that holds the documents.
pub open spec fn documents_dir_of(root: Seq<char>) -> Seq<char> {
    root + "/documents"@
}

/// Where the file named `file_name` lies under the cache directory `root`.
pub open spec fn path_in(root: Seq<char>, file_name: Seq<char>) -> Seq<char> {
    root + "/documents/"@ + file_name
}

/// Where `doc` is kept in the given format.
pub open spec fn document_path_of(root: Seq<char>, doc: DocumentId, format: Format) -> Seq<char> {
    path_in(root, document_file_name(doc, format))
}

/// Where the metadata of `doc` is kept.
pub open spec fn metadata_path_of(root: Seq<char>, doc: DocumentId) -> Seq<char> {
    path_in(root, metadata_file_name(doc))
}

/// The cache directory to use where none is given: the platform's, or else
/// `.cache/rfc` under the home directory.
pub open spec fn default_cache_dir_of(
    platform_cache_dir: Option<Seq<char>>,
    home: Option<Seq<char>>,
) -> Result<Seq<char>, CacheError> {
    match (platform_cache_dir, home) {
        (Some(dir), _) => Ok(dir),
        (None, Some(home)) => Ok(home + "/.cache/rfc"@),
        (None, None) => Err(CacheError::HomeNotSet),
    }
}

/// A directory, or the reason why there is none, as mathematical values.
pub open spec fn dir_view(r: Result<String, CacheError>) -> Result<Seq<char>, CacheError> {
    match r {
        Ok(dir) => Ok(dir@),
        Err(e) => Err(e),
    }
}

/// The outcome that names the directory `dir`.
pub open spec fn dir_ok(dir: Seq<char>) -> Result<Seq<char>, CacheError> {
    Ok(dir)
}

/// The outcome that names no directory.
pub open spec fn dir_err(e: CacheError) -> Result<Seq<char>, CacheError> {
    Err(e)
}

/// The operations that put `content` into the file at `path`.
pub open spec fn store_actions(root: Seq<char>, path: Seq<char>, content: Seq<char>) -> Seq<
    FileActionView,
> {
    seq![
        FileActionView::CreateDirAll { path: documents_dir_of(root) },
        FileActionView::Write { path, content },
    ]
}

/// The operation that deletes the file at `path` if it is there.
pub open spec fn removal_of(path: Seq<char>, exists: bool) -> Seq<FileActionView> {
    if exists {
        seq![FileActionView::RemoveFile { path }]
    } else {
        Seq::empty()
    }
}

/// The operations that remove `doc` from the cache, given which of its
/// files exist: each existing file is deleted, HTML first, then text, then
/// metadata.
pub open spec fn removal_actions(
    root: Seq<char>,
    doc: DocumentId,
    html_exists: bool,
    text_exists: bool,
    meta_exists: bool,
) -> Seq<FileActionView> {
    removal_of(document_path_of(root, doc, Format::Html), html_exists) + removal_of(
        document_path_of(root, doc, Format::Text),
        text_exists,
    ) + removal_of(metadata_path_of(root, doc), meta_exists)
}

/// The operations that empty the cache: delete the cache directory if it
/// exists, and make it anew.
pub open spec fn clear_actions(root: Seq<char>, exists: bool) -> Seq<FileActionView> {
    if exists {
        seq![
            FileActionView::RemoveDirAll { path: root },
            FileActionView::CreateDirAll { path: root },
        ]
    } else {
        seq![FileActionView::CreateDirAll { path: root }]
    }
}

/// The index of the last `.` in `name`, or -1 if it has none.
pub open spec fn last_dot(name: Seq<char>) -> int
    decreases name.len(),
{
    if name.len() == 0 {
        -1
    } else if name.last() == '.' {
        name.len() - 1
    } else {
        last_dot(name.drop_last())
    }
}

/// A file name without its extension: what stands before the last `.`, or
/// the whole name if it has no `.` or only the one it starts with.
pub open spec fn stem_of(name: Seq<char>) -> Seq<char> {
    if last_dot(name) <= 0 {
        name
    } else {
        name.take(last_dot(name))
    }
}

/// `s` with only the first occurrence of each element kept.
pub open spec fn without_repeats<A>(s: Seq<A>) -> Seq<A>
    decreases s.len(),
{
    if s.len() == 0 {
        s
    } else {
        let rest = without_repeats(s.drop_last());
        if rest.contains(s.last()) {
            rest
        } else {
            rest.push(s.last())
        }
    }
}

/// The identifiers that the file names stand for, one for each name whose
/// stem parses, in the order of the names.
pub open spec fn identifiers(file_names: Seq<Seq<char>>) -> Seq<DocumentId> {
    file_names.filter_map(|name: Seq<char>| parse_spec(stem_of(name)))
}

/// The documents that a directory with these file names holds: each
/// identifier once, in the order of first appearance.
pub open spec fn listed(file_names: Seq<Seq<char>>) -> Seq<DocumentId> {
    without_repeats(identifiers(file_names))
}

/// The metadata in the first record that was read from the file named
/// `file_name`, if there is one.
pub open spec fn sidecar_for(sidecars: Seq<SidecarView>, file_name: Seq<char>) -> Option<
    CacheMetadataView,
>
    decreases sidecars.len(),
{
    if sidecars.len() == 0 {
        None
    } else if sidecars[0].file_name == file_name {
        Some(sidecars[0].metadata)
    } else {
        sidecar_for(sidecars.drop_first(), file_name)
    }
}

/// `doc` with the metadata that was read from its metadata file, if any.
pub open spec fn cached_document(doc: DocumentId, sidecars: Seq<SidecarView>) -> CachedDocumentView {
    CachedDocumentView { doc_type: doc, metadata: sidecar_for(sidecars, metadata_file_name(doc)) }
}

/// The listed documents, each with its metadata.
pub open spec fn listed_with_metadata(
    file_names: Seq<Seq<char>>,
    sidecars: Seq<SidecarView>,
) -> Seq<CachedDocumentView> {
    listed(file_names).map_values(|doc: DocumentId| cached_document(doc, sidecars))
}

/// `d` is the last dot of `s` when `s` has a dot there and none behind it.
pub proof fn lemma_last_dot(s: Seq<char>, d: int)
    requires
        -1 <= d < s.len(),
        d >= 0 ==> s[d] == '.',
        forall|j: int| d < j < s.len() ==> #[trigger] s[j] != '.',
    ensures
        last_dot(s) == d,
    decreases s.len(),
{
    if s.len() > 0 && d < s.len() - 1 {
        lemma_last_dot(s.drop_last(), d);
    }
}

/// A file name without its extension.
pub fn file_stem(name: &str) -> (r: &str)
    ensures
        r@ == stem_of(name@),
{
    let chars = chars_of(name);
    let mut i: usize = chars.len();
    while i > 0 && chars[i - 1] != '.'
        invariant
            i <= chars.len(),
            forall|j: int| i <= j < chars.len() ==> #[trigger] chars@[j] != '.',
        decreases i,
    {
        i = i - 1;
    }
    proof {
        lemma_last_dot(chars@, i - 1);
    }
    if i <= 1 {
        name
    } else {
        assert(name@.subrange(0, i - 1) =~= name@.take(i - 1));
        name.substring_char(0, i - 1)
    }
}

/// Whether `doc` is among `docs`.
fn contains_doc(docs: &Vec<DocumentType>, doc: &DocumentType) -> (r: bool)
    ensures
        r == docs.deep_view().contains(doc@),
{
    let mut i: usize = 0;
    while i < docs.len()
        invariant
            i <= docs.len(),
            forall|j: int| 0 <= j < i ==> docs.deep_view()[j] != doc@,
        decreases docs.len() - i,
    {
        if docs[i] == *doc {
            assert(docs.deep_view()[i as int] == doc@);
            return true;
        }
        i = i + 1;
    }
    false
}

/// The metadata among `sidecars` that was read from the file `file_name`.
fn find_sidecar(sidecars: &Vec<Sidecar>, file_name: &String) -> (r: Option<CacheMetadata>)
    ensures
        r.deep_view() == sidecar_for(sidecars.deep_view(), file_name@),
{
    let ghost all = sidecars.deep_view();
    let mut i: usize = 0;
    assert(all.skip(0) =~= all);
    while i < sidecars.len()
        invariant
            i <= sidecars.len(),
            all == sidecars.deep_view(),
            sidecar_for(all, file_name@) == sidecar_for(all.skip(i as int), file_name@),
        decreases sidecars.len() - i,
    {
        let ghost rest = all.skip(i as int);
        assert(rest[0] == sidecars[i as int]@);
        assert(rest.drop_first() =~= all.skip(i + 1));
        if sidecars[i].file_name == *file_name {
            return Some(sidecars[i].metadata.clone());
        }
        i = i + 1;
    }
    assert(all.skip(i as int).len() == 0);
    None
}

/// Manages local document caching
pub struct CacheManager {
    cache_dir: String,
}

impl CacheManager {
    /// The cache directory.
    pub closed spec fn dir(&self) -> Seq<char> {
        self.cache_dir@
    }

    /// Get the default cache directory, given the cache directory that the
    /// platform names for this program and the user's home directory.
    pub fn default_cache_dir(platform_cache_dir: Option<String>, home: Option<String>) -> (r:
        Result<String, CacheError>)
        ensures
            dir_view(r) == default_cache_dir_of(platform_cache_dir.deep_view(), home.deep_view()),
    {
        if let Some(dir) = platform_cache_dir {
            Ok(dir)
        } else if let Some(home) = home {
            // Fallback to home directory
            let mut dir = home;
            dir.append("/.cache/rfc");
            Ok(dir)
        } else {
            Err(CacheError::HomeNotSet)
        }
    }

    /// Create a new cache manager for the default cache directory. The
    /// caller creates the directory: see [`CacheManager::create_dir`].
    pub fn new(platform_cache_dir: Option<String>, home: Option<String>) -> (r: Result<
        Self,
        CacheError,
    >)
        ensures
            r matches Ok(cache) ==> default_cache_dir_of(
                platform_cache_dir.deep_view(),
                home.deep_view(),
            ) == dir_ok(cache.dir()),
            r matches Err(e) ==> default_cache_dir_of(
                platform_cache_dir.deep_view(),
                home.deep_view(),
            ) == dir_err(e),
    {
        match Self::default_cache_dir(platform_cache_dir, home) {
            Ok(cache_dir) => Ok(Self { cache_dir }),
            Err(e) => Err(e),
        }
    }

    /// Create a cache manager with a custom directory. The caller creates
    /// the directory: see [`CacheManager::create_dir`].
    pub fn with_dir(cache_dir: String) -> (r: Self)
        ensures
            r.dir() == cache_dir@,
    {
        Self { cache_dir }
    }

    /// The operation that makes sure the cache directory exists.
    pub fn create_dir(&self) -> (r: FileAction)
        ensures
            r@ == (FileActionView::CreateDirAll { path: self.dir() }),
    {
        FileAction::CreateDirAll { path: self.cache_dir.clone() }
    }

    /// Get the cache directory path
    pub fn cache_dir(&self) -> (r: &str)
        ensures
            r@ == self.dir(),
    {
        self.cache_dir.as_str()
    }

    /// The directory that holds the cached documents.
    pub fn documents_dir(&self) -> (r: String)
        ensures
            r@ == documents_dir_of(self.dir()),
    {
        let mut path = self.cache_dir.clone();
        path.append("/documents");
        path
    }

    /// Where the file named `file_name` lies in the cache.
    fn path_to(&self, file_name: &str) -> (r: String)
        ensures
            r@ == path_in(self.dir(), file_name@),
    {
        let mut path = self.cache_dir.clone();
        path.append("/documents/");
        path.append(file_name);
        path
    }

    /// Get the path for a cached document
    pub fn document_path(&self, doc: &DocumentType, format: Format) -> (r: String)
        ensures
            r@ == document_path_of(self.dir(), doc@, format),
    {
        let mut file_name = doc.name();
        file_name.append(".");
        file_name.append(format.extension());
        self.path_to(file_name.as_str())
    }

    /// Get the path for metadata file
    pub fn metadata_path(&self, doc: &DocumentType) -> (r: String)
        ensures
            r@ == metadata_path_of(self.dir(), doc@),
    {
        let mut file_name = doc.name();
        file_name.append(".meta");
        self.path_to(file_name.as_str())
    }

    /// The operations that put `content` into the file at `path`.
    fn store(&self, path: String, content: &str) -> (r: Vec<FileAction>)
        ensures
            r.deep_view() == store_actions(self.dir(), path@, content@),
    {
        let mut actions: Vec<FileAction> = Vec::new();
        // Ensure parent directory exists
        actions.push(FileAction::CreateDirAll { path: self.documents_dir() });
        actions.push(FileAction::Write { path, content: String::from_str(content) });
        assert(actions.deep_view() =~= store_actions(self.dir(), path@, content@));
        actions
    }

    /// Store document content in cache: the operations that do so.
    pub fn store_document(&self, doc: &DocumentType, format: Format, content: &str) -> (r: Vec<
        FileAction,
    >)
        ensures
            r.deep_view() == store_actions(
                self.dir(),
                document_path_of(self.dir(), doc@, format),
                content@,
            ),
    {
        self.store(self.document_path(doc, format), content)
    }

    /// Store metadata for a document: the operations that write `record`,
    /// the serialized metadata, to the document's metadata file.
    pub fn store_metadata(&self, doc: &DocumentType, record: &str) -> (r: Vec<FileAction>)
        ensures
            r.deep_view() == store_actions(
                self.dir(),
                metadata_path_of(self.dir(), doc@),
                record@,
            ),
    {
        self.store(self.metadata_path(doc), record)
    }

    /// Clear all cached documents: the operations that do so, given whether
    /// the cache directory exists.
    pub fn clear_cache(&self, exists: bool) -> (r: Vec<FileAction>)
        ensures
            r.deep_view() == clear_actions(self.dir(), exists),
    {
        let mut actions: Vec<FileAction> = Vec::new();
        if exists {
            actions.push(FileAction::RemoveDirAll { path: self.cache_dir.clone() });
        }
        actions.push(FileAction::CreateDirAll { path: self.cache_dir.clone() });
        assert(actions.deep_view() =~= clear_actions(self.dir(), exists));
        actions
    }

    /// Remove a specific document from cache, given which of its files
    /// exist. Removes document content and associated metadata.
    /// Returns the operations to carry out, and true if the document was
    /// found: if it has an HTML file or a text file.
    pub fn remove(
        &self,
        doc: &DocumentType,
        html_exists: bool,
        text_exists: bool,
        meta_exists: bool,
    ) -> (r: (Vec<FileAction>, bool))
        ensures
            r.0.deep_view() == removal_actions(
                self.dir(),
                doc@,
                html_exists,
                text_exists,
                meta_exists,
            ),
            r.1 == (html_exists || text_exists),
    {
        let mut actions: Vec<FileAction> = Vec::new();
        let mut removed = false;

        if html_exists {
            actions.push(FileAction::RemoveFile { path: self.document_path(doc, Format::Html) });
            removed = true;
        }
        if text_exists {
            actions.push(FileAction::RemoveFile { path: self.document_path(doc, Format::Text) });
            removed = true;
        }
        if meta_exists {
            actions.push(FileAction::RemoveFile { path: self.metadata_path(doc) });
        }
        assert(actions.deep_view() =~= removal_actions(
            self.dir(),
            doc@,
            html_exists,
            text_exists,
            meta_exists,
        ));
        (actions, removed)
    }

    /// List all cached documents, given the names of the files in the
    /// documents directory.
    pub fn list_cached(&self, file_names: &Vec<String>) -> (r: Vec<DocumentType>)
        ensures
            r.deep_view() == listed(file_names.deep_view()),
    {
        let ghost names = file_names.deep_view();
        let mut documents: Vec<DocumentType> = Vec::new();
        let mut i: usize = 0;
        assert(names.take(0) =~= Seq::<Seq<char>>::empty());
        assert(documents.deep_view() =~= Seq::<DocumentId>::empty());
        while i < file_names.len()
            invariant
                i <= file_names.len(),
                names == file_names.deep_view(),
                documents.deep_view() == listed(names.take(i as int)),
            decreases file_names.len() - i,
        {
            let ghost before = identifiers(names.take(i as int));
            let ghost now = names.take(i + 1);
            let ghost kept = documents.deep_view();
            proof {
                assert(now.drop_last() =~= names.take(i as int));
                assert(now.last() == file_names[i as int]@);
            }
            let stem = file_stem(file_names[i].as_str());
            if let Some(doc_type) = DocumentType::parse(stem) {
                proof {
                    assert(identifiers(now) =~= before.push(doc_type@));
                    assert(before.push(doc_type@).drop_last() =~= before);
                }
                if !contains_doc(&documents, &doc_type) {
                    documents.push(doc_type);
                    assert(documents.deep_view() =~= kept.push(doc_type@));
                }
            } else {
                assert(identifiers(now) == before);
            }
            i = i + 1;
        }
        assert(names.take(i as int) =~= names);
        documents
    }

    /// List cached documents with their metadata, given the names of the
    /// files in the documents directory and the metadata records that could
    /// be read from it.
    pub fn list_cached_with_metadata(&self, file_names: &Vec<String>, sidecars: &Vec<Sidecar>) -> (r:
        Vec<CachedDocument>)
        ensures
            r.deep_view() == listed_with_metadata(file_names.deep_view(), sidecars.deep_view()),
    {
        let ghost docs = listed(file_names.deep_view());
        let ghost records = sidecars.deep_view();
        let mut cached: Vec<CachedDocument> = Vec::new();
        assert(cached.deep_view() =~= Seq::<CachedDocumentView>::empty());
        for doc_type in it: self.list_cached(file_names)
            invariant
                it.seq().len() == docs.len(),
                forall|j: int| 0 <= j < docs.len() ==> docs[j] == (#[trigger] it.seq()[j])@,
                records == sidecars.deep_view(),
                cached.deep_view().len() == it.index(),
                forall|j: int|
                    0 <= j < it.index() ==> #[trigger] cached.deep_view()[j] == cached_document(
                        docs[j],
                        records,
                    ),
        {
            let ghost kept = cached.deep_view();
            let mut file_name = doc_type.name();
            file_name.append(".meta");
            let metadata = find_sidecar(sidecars, &file_name);
            cached.push(CachedDocument { doc_type, metadata });
            assert(cached.deep_view() =~= kept.push(cached_document(doc_type@, records)));
        }
        assert(cached.deep_view() =~= listed_with_metadata(
            file_names.deep_view(),
            sidecars.deep_view(),
        ));
        cached
    }
}

/// What reading the file at `path` gives: its content, or nothing if there
/// is no such file.
pub open spec fn cached(files: Map<Seq<char>, Seq<char>>, path: Seq<char>) -> Option<Seq<char>> {
    if files.contains_key(path) {
        Some(files[path])
    } else {
        None
    }
}

/// Carrying out two lists of operations one after the other is carrying
/// out their concatenation.
pub proof fn lemma_run_concat(
    files: Map<Seq<char>, Seq<char>>,
    first: Seq<FileActionView>,
    second: Seq<FileActionView>,
)
    ensures
        run(files, first + second) == run(run(files, first), second),
    decreases second.len(),
{
    if second.len() == 0 {
        assert(first + second =~= first);
    } else {
        lemma_run_concat(files, first, second.drop_last());
        assert((first + second).drop_last() =~= first + second.drop_last());
        assert((first + second).last() == second.last());
    }
}

/// Deleting a file if it is there leaves no file there and every other
/// file as it was.
proof fn lemma_removal_of(files: Map<Seq<char>, Seq<char>>, path: Seq<char>)
    ensures
        run(files, removal_of(path, files.contains_key(path))) == files.remove(path),
{
    let actions = removal_of(path, files.contains_key(path));
    if files.contains_key(path) {
        assert(actions.drop_last() =~= Seq::<FileActionView>::empty());
        assert(run(files, actions.drop_last()) == files);
    } else {
        assert(files.remove(path) =~= files);
    }
}

/// The HTML file, the text file and the metadata file of a document are
/// three different files.
pub proof fn lemma_paths_distinct(root: Seq<char>, doc: DocumentId)
    ensures
        document_path_of(root, doc, Format::Html) != document_path_of(root, doc, Format::Text),
        document_path_of(root, doc, Format::Html) != metadata_path_of(root, doc),
        document_path_of(root, doc, Format::Text) != metadata_path_of(root, doc),
{
    reveal_strlit(".");
    reveal_strlit("html");
    reveal_strlit("txt");
    reveal_strlit(".meta");
    let html = document_path_of(root, doc, Format::Html);
    let text = document_path_of(root, doc, Format::Text);
    let meta = metadata_path_of(root, doc);
    assert(html.len() == text.len() + 1);
    assert(meta.len() == text.len() + 1);
    assert(html.last() == 'l');
    assert(meta.last() == 'a');
}

/// After a document has been stored in one format, reading it in that
/// format gives what was stored, and every other file reads as before: so
/// does the same document in the other format.
pub proof fn lemma_store_then_get(
    root: Seq<char>,
    files: Map<Seq<char>, Seq<char>>,
    doc: DocumentId,
    format: Format,
    content: Seq<char>,
)
    ensures
        ({
            let path = document_path_of(root, doc, format);
            let after = run(files, store_actions(root, path, content));
            &&& cached(after, path) == Some(content)
            &&& forall|other: Seq<char>| other != path ==> cached(after, other) == cached(files, other)
            &&& format == Format::Text ==> cached(after, document_path_of(root, doc, Format::Html))
                == cached(files, document_path_of(root, doc, Format::Html))
            &&& format == Format::Html ==> cached(after, document_path_of(root, doc, Format::Text))
                == cached(files, document_path_of(root, doc, Format::Text))
        }),
{
    let path = document_path_of(root, doc, format);
    let actions = store_actions(root, path, content);
    let create = seq![FileActionView::CreateDirAll { path: documents_dir_of(root) }];
    assert(actions.drop_last() =~= create);
    assert(create.drop_last() =~= Seq::<FileActionView>::empty());
    assert(run(files, create.drop_last()) == files);
    assert(run(files, create) == files);
    assert(run(files, actions) == files.insert(path, content));
    lemma_paths_distinct(root, doc);
}

/// Removing a document deletes its HTML file, its text file and its
/// metadata file and leaves every other file as it was; it reports the
/// document as removed exactly when one of the first two was there. A
/// second removal finds nothing, does nothing and reports nothing removed.
pub proof fn lemma_remove(root: Seq<char>, files: Map<Seq<char>, Seq<char>>, doc: DocumentId)
    ensures
        ({
            let html = document_path_of(root, doc, Format::Html);
            let text = document_path_of(root, doc, Format::Text);
            let meta = metadata_path_of(root, doc);
            let after = run(
                files,
                removal_actions(
                    root,
                    doc,
                    files.contains_key(html),
                    files.contains_key(text),
                    files.contains_key(meta),
                ),
            );
            &&& after == files.remove(html).remove(text).remove(meta)
            &&& cached(after, html) is None
            &&& cached(after, text) is None
            &&& cached(after, meta) is None
            &&& !(after.contains_key(html) || after.contains_key(text))
            &&& removal_actions(
                root,
                doc,
                after.contains_key(html),
                after.contains_key(text),
                after.contains_key(meta),
            ) == Seq::<FileActionView>::empty()
        }),
{
    let html = document_path_of(root, doc, Format::Html);
    let text = document_path_of(root, doc, Format::Text);
    let meta = metadata_path_of(root, doc);
    lemma_paths_distinct(root, doc);
    let first = removal_of(html, files.contains_key(html));
    let second = removal_of(text, files.contains_key(text));
    let third = removal_of(meta, files.contains_key(meta));
    lemma_removal_of(files, html);
    let files1 = files.remove(html);
    assert(files1.contains_key(text) == files.contains_key(text));
    lemma_removal_of(files1, text);
    let files2 = files1.remove(text);
    assert(files2.contains_key(meta) == files.contains_key(meta));
    lemma_removal_of(files2, meta);
    lemma_run_concat(files, first, second);
    lemma_run_concat(files, first + second, third);
    let after = files2.remove(meta);
    assert(removal_actions(root, doc, false, false, false) =~= Seq::<FileActionView>::empty());
}

/// Clearing the cache always ends with making the cache directory. Where
/// the directory exists, it leaves no file under it and every file
/// elsewhere as it was; where it does not, it leaves every file as it was.
pub proof fn lemma_clear_cache(root: Seq<char>, files: Map<Seq<char>, Seq<char>>, exists: bool)
    ensures
        clear_actions(root, exists).len() > 0,
        clear_actions(root, exists).last() == (FileActionView::CreateDirAll { path: root }),
        run(files, clear_actions(root, false)) == files,
        ({
            let after = run(files, clear_actions(root, true));
            forall|path: Seq<char>|
                cached(after, path) == if crate::cache::files::is_under(path, root) {
                    None
                } else {
                    cached(files, path)
                }
        }),
{
    let create = clear_actions(root, false);
    assert(create.drop_last() =~= Seq::<FileActionView>::empty());
    assert(run(files, create.drop_last()) == files);
    let actions = clear_actions(root, true);
    let remove = seq![FileActionView::RemoveDirAll { path: root }];
    assert(actions.drop_last() =~= remove);
    assert(remove.drop_last() =~= Seq::<FileActionView>::empty());
    assert(run(files, remove.drop_last()) == files);
    let emptied = (FileActionView::RemoveDirAll { path: root }).apply(files);
    assert(run(files, remove) == emptied);
    let after = run(files, actions);
    assert(after == emptied);
    assert forall|path: Seq<char>|
        cached(after, path) == if crate::cache::files::is_under(path, root) {
            None
        } else {
            cached(files, path)
        } by {
        assert(emptied.contains_key(path) == (files.contains_key(path)
            && !crate::cache::files::is_under(path, root)));
    }
}

/// Dropping repeats leaves no element twice and loses no element.
pub proof fn lemma_without_repeats<A>(s: Seq<A>)
    ensures
        without_repeats(s).no_duplicates(),
        without_repeats(s).len() <= s.len(),
        forall|x: A| without_repeats(s).contains(x) <==> s.contains(x),
    decreases s.len(),
{
    if s.len() > 0 {
        let rest = without_repeats(s.drop_last());
        lemma_without_repeats(s.drop_last());
        let r = without_repeats(s);
        assert forall|x: A| r.contains(x) <==> s.contains(x) by {
            if s.contains(x) {
                let i = choose|i: int| 0 <= i < s.len() && s[i] == x;
                if i < s.len() - 1 {
                    assert(s.drop_last()[i] == x);
                    assert(s.drop_last().contains(x));
                    assert(rest.contains(x));
                    let j = choose|j: int| 0 <= j < rest.len() && rest[j] == x;
                    assert(r[j] == x);
                } else if !rest.contains(x) {
                    assert(r[r.len() - 1] == x);
                }
            }
            if r.contains(x) {
                let j = choose|j: int| 0 <= j < r.len() && r[j] == x;
                if j < rest.len() {
                    assert(rest[j] == x);
                    assert(rest.contains(x));
                    assert(s.drop_last().contains(x));
                    let i = choose|i: int| 0 <= i < s.drop_last().len() && s.drop_last()[i] == x;
                    assert(s[i] == x);
                } else {
                    assert(s[s.len() - 1] == x);
                }
            }
        }
    }
}

/// The identifiers are what the stems of the file names parse as.
proof fn lemma_identifiers(file_names: Seq<Seq<char>>)
    ensures
        forall|id: DocumentId|
            identifiers(file_names).contains(id) <==> exists|i: int|
                0 <= i < file_names.len() && parse_spec(stem_of(#[trigger] file_names[i])) == Some(
                    id,
                ),
    decreases file_names.len(),
{
    let ids = identifiers(file_names);
    if file_names.len() > 0 {
        let rest_names = file_names.drop_last();
        let rest = identifiers(rest_names);
        lemma_identifiers(rest_names);
        let last = parse_spec(stem_of(file_names.last()));
        assert forall|id: DocumentId|
            ids.contains(id) <==> exists|i: int|
                0 <= i < file_names.len() && parse_spec(stem_of(#[trigger] file_names[i])) == Some(
                    id,
                ) by {
            if ids.contains(id) {
                let j = choose|j: int| 0 <= j < ids.len() && ids[j] == id;
                if j < rest.len() {
                    assert(rest[j] == id);
                    assert(rest.contains(id));
                    let i = choose|i: int|
                        0 <= i < rest_names.len() && parse_spec(stem_of(#[trigger] rest_names[i]))
                            == Some(id);
                    assert(file_names[i] == rest_names[i]);
                } else {
                    assert(last == Some(id));
                    assert(file_names[file_names.len() - 1] == file_names.last());
                }
            }
            if exists|i: int|
                0 <= i < file_names.len() && parse_spec(stem_of(#[trigger] file_names[i])) == Some(
                    id,
                ) {
                let i = choose|i: int|
                    0 <= i < file_names.len() && parse_spec(stem_of(#[trigger] file_names[i]))
                        == Some(id);
                if i < rest_names.len() {
                    assert(rest_names[i] == file_names[i]);
                    assert(rest.contains(id));
                    let j = choose|j: int| 0 <= j < rest.len() && rest[j] == id;
                    assert(ids[j] == id);
                } else {
                    assert(ids[ids.len() - 1] == id);
                }
            }
        }
    }
}

/// A listing names no document twice, and names exactly the documents that
/// the stem of some file name parses as.
pub proof fn lemma_listed(file_names: Seq<Seq<char>>)
    ensures
        listed(file_names).no_duplicates(),
        listed(file_names).len() <= file_names.len(),
        forall|id: DocumentId|
            listed(file_names).contains(id) <==> exists|i: int|
                0 <= i < file_names.len() && parse_spec(stem_of(#[trigger] file_names[i])) == Some(
                    id,
                ),
{
    lemma_without_repeats(identifiers(file_names));
    lemma_identifiers(file_names);
    lemma_identifiers_len(file_names);
    assert forall|id: DocumentId|
        listed(file_names).contains(id) <==> exists|i: int|
            0 <= i < file_names.len() && parse_spec(stem_of(#[trigger] file_names[i])) == Some(
                id,
            ) by {
        assert(listed(file_names).contains(id) <==> identifiers(file_names).contains(id));
    }
}

proof fn lemma_identifiers_len(file_names: Seq<Seq<char>>)
    ensures
        identifiers(file_names).len() <= file_names.len(),
    decreases file_names.len(),
{
    if file_names.len() > 0 {
        lemma_identifiers_len(file_names.drop_last());
    }
}

/// The stem of a document's file name, and of its metadata file's name, is
/// the document's canonical name.
pub proof fn lemma_file_name_stem(doc: DocumentId, format: Format)
    requires
        doc.name().len() > 0,
    ensures
        stem_of(document_file_name(doc, format)) == doc.name(),
        stem_of(metadata_file_name(doc)) == doc.name(),
{
    reveal_strlit(".");
    reveal_strlit("html");
    reveal_strlit("txt");
    reveal_strlit(".meta");
    let name = doc.name();
    let file = document_file_name(doc, format);
    lemma_last_dot(file, name.len() as int);
    assert(file.take(name.len() as int) =~= name);
    let meta = metadata_file_name(doc);
    lemma_last_dot(meta, name.len() as int);
    assert(meta.take(name.len() as int) =~= name);
}

/// A directory that holds an RFC as text, as HTML and with its metadata
/// lists that RFC once.
pub proof fn lemma_listed_once(n: u32)
    ensures
        listed(
            seq![
                document_file_name(DocumentId::Rfc(n), Format::Text),
                document_file_name(DocumentId::Rfc(n), Format::Html),
                metadata_file_name(DocumentId::Rfc(n)),
            ],
        ) == seq![DocumentId::Rfc(n)],
{
    let doc = DocumentId::Rfc(n);
    let names = seq![
        document_file_name(doc, Format::Text),
        document_file_name(doc, Format::Html),
        metadata_file_name(doc),
    ];
    reveal_strlit("rfc");
    crate::models::document::lemma_parse_rfc_number(n);
    lemma_file_name_stem(doc, Format::Text);
    lemma_file_name_stem(doc, Format::Html);
    let two = names.drop_last();
    let one = two.drop_last();
    assert(one.drop_last() =~= Seq::<Seq<char>>::empty());
    assert(identifiers(one.drop_last()) =~= Seq::<DocumentId>::empty());
    assert(identifiers(one) =~= seq![doc]);
    assert(identifiers(two) =~= seq![doc, doc]);
    assert(identifiers(names) =~= seq![doc, doc, doc]);
    let ids = identifiers(names);
    assert(ids.drop_last() =~= seq![doc, doc]);
    assert(seq![doc, doc].drop_last() =~= seq![doc]);
    assert(seq![doc].drop_last() =~= Seq::<DocumentId>::empty());
    assert(without_repeats(Seq::<DocumentId>::empty()) =~= Seq::<DocumentId>::empty());
    assert(without_repeats(seq![doc]) =~= seq![doc]);
    assert(seq![doc].contains(doc)) by {
        assert(seq![doc][0] == doc);
    }
    assert(without_repeats(seq![doc, doc]) =~= seq![doc]);
    assert(without_repeats(ids) =~= seq![doc]);
}

} // verus!
