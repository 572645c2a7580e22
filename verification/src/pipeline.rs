//! Fetching a document and caching it, one step at a time.
//!
//! The pipeline decides; the caller acts. Each [`Step`] names one thing for
//! the caller to do (read the cache, fetch the document, render HTML as
//! text, write a file, look a title up) and the caller reports what came of
//! it as a [`FetchEvent`].
//! A step without an action is the end: the state is then `Done` with the
//! document's text, or `Failed`.

use vstd::prelude::*;
use vstd::string::StringExecFns;
use crate::cache::files::{run, FileAction, FileActionView};
use crate::cache::metadata::{CacheMetadata, CacheMetadataView};
use crate::cache::storage::{
    cached, document_path_of, lemma_store_then_get, store_actions, CacheManager,
};
use crate::models::document::{DocumentId, DocumentType, Format};
use crate::models::timestamp::Timestamp;

verus! {

/// The width, in columns, to which text made from HTML is wrapped.
pub const WRAP_WIDTH: usize = 80;

/// What rendering gave, as mathematical values: the text, or the
/// renderer's complaint.
pub open spec fn rendering_view(rendering: Result<String, String>) -> Result<Seq<char>, Seq<char>> {
    match rendering {
        Ok(text) => Ok(text@),
        Err(error) => Err(error@),
    }
}

/// Something to tell the user on the side while the pipeline goes on.
#[derive(Debug)]
pub enum Notice {
    /// The text came from the cache.
    UsingCachedCopy,
    /// The document is being fetched.
    Fetching,
    /// The document came as HTML and is turned into plain text.
    ConvertingFromHtml,
    /// The HTML could not be turned into text and is kept as it came.
    ConversionFailed { error: String },
    /// The title could not be fetched or stored; the text is cached all the
    /// same.
    MetadataFailed { error: String },
}

/// What a [`Notice`] holds, as mathematical values.
pub enum NoticeView {
    UsingCachedCopy,
    Fetching,
    ConvertingFromHtml,
    ConversionFailed { error: Seq<char> },
    MetadataFailed { error: Seq<char> },
}

impl View for Notice {
    type V = NoticeView;

    open spec fn view(&self) -> NoticeView {
        match self {
            Notice::UsingCachedCopy => NoticeView::UsingCachedCopy,
            Notice::Fetching => NoticeView::Fetching,
            Notice::ConvertingFromHtml => NoticeView::ConvertingFromHtml,
            Notice::ConversionFailed { error } => NoticeView::ConversionFailed { error: error@ },
            Notice::MetadataFailed { error } => NoticeView::MetadataFailed { error: error@ },
        }
    }
}

impl DeepView for Notice {
    type V = NoticeView;

    open spec fn deep_view(&self) -> NoticeView {
        self@
    }
}

impl NoticeView {
    /// The notice in words, about the document `doc`.
    pub open spec fn message(self, doc: DocumentId) -> Seq<char> {
        match self {
            NoticeView::UsingCachedCopy => "Using cached copy of "@ + doc.display_name(),
            NoticeView::Fetching => "Fetching "@ + doc.display_name() + "..."@,
            NoticeView::ConvertingFromHtml => "Plain text not available, converting from HTML..."@,
            NoticeView::ConversionFailed { error } => "Warning: HTML to text conversion failed ("@
                + error + "), displaying raw HTML"@,
            NoticeView::MetadataFailed { error } => "Warning: Failed to fetch metadata for "@
                + doc.display_name() + ": "@ + error,
        }
    }
}

impl Notice {
    /// The notice in words, about the document `doc`.
    pub fn message(&self, doc: &DocumentType) -> (r: String)
        ensures
            r@ == self@.message(doc@),
    {
        match self {
            Notice::UsingCachedCopy => {
                let mut out = String::from_str("Using cached copy of ");
                out.append(doc.display_name().as_str());
                out
            },
            Notice::Fetching => {
                let mut out = String::from_str("Fetching ");
                out.append(doc.display_name().as_str());
                out.append("...");
                out
            },
            Notice::ConvertingFromHtml => String::from_str(
                "Plain text not available, converting from HTML...",
            ),
            Notice::ConversionFailed { error } => {
                let mut out = String::from_str("Warning: HTML to text conversion failed (");
                out.append(error.as_str());
                out.append("), displaying raw HTML");
                out
            },
            Notice::MetadataFailed { error } => {
                let mut out = String::from_str("Warning: Failed to fetch metadata for ");
                out.append(doc.display_name().as_str());
                out.append(": ");
                out.append(error.as_str());
                out
            },
        }
    }
}

/// The plain text of HTML content, given what rendering it gave: the
/// rendering, or the content as it came where rendering failed.
pub open spec fn text_or_raw_spec(
    content: Seq<char>,
    rendering: Result<Seq<char>, Seq<char>>,
) -> Seq<char> {
    match rendering {
        Ok(text) => text,
        Err(_) => content,
    }
}

/// What the user is told of a rendering: nothing if there is one, the
/// renderer's complaint if there is none.
pub open spec fn rendering_notices(rendering: Result<Seq<char>, Seq<char>>) -> Seq<NoticeView> {
    match rendering {
        Ok(_) => Seq::empty(),
        Err(error) => seq![NoticeView::ConversionFailed { error }],
    }
}

/// The plain text of HTML content, given what rendering it gave, and what
/// to tell the user.
pub fn text_or_raw(content: String, rendering: Result<String, String>) -> (r: (
    String,
    Vec<Notice>,
))
    ensures
        r.0@ == text_or_raw_spec(content@, rendering_view(rendering)),
        r.1.deep_view() == rendering_notices(rendering_view(rendering)),
{
    match rendering {
        Ok(text) => (text, no_notices()),
        Err(error) => (content, one_notice(Notice::ConversionFailed { error })),
    }
}

/// Where the pipeline stands.
#[derive(Debug)]
pub enum FetchState {
    /// The cached text is being read.
    ReadingCache,
    /// The document is being fetched.
    Fetching,
    /// The document came as HTML, which is being rendered as text.
    Rendering { html: String },
    /// The text is being written to the cache.
    Storing { text: String },
    /// The text is cached; the title is being looked up.
    FetchingTitle { text: String },
    /// The text is cached; the title is being written to the cache.
    StoringMetadata { text: String },
    /// The end: the document's text.
    Done { text: String },
    /// The end: there is no text, for the reason given.
    Failed { error: String },
}

/// What a [`FetchState`] holds, as mathematical values.
pub enum FetchStateView {
    ReadingCache,
    Fetching,
    Rendering { html: Seq<char> },
    Storing { text: Seq<char> },
    FetchingTitle { text: Seq<char> },
    StoringMetadata { text: Seq<char> },
    Done { text: Seq<char> },
    Failed { error: Seq<char> },
}

impl View for FetchState {
    type V = FetchStateView;

    open spec fn view(&self) -> FetchStateView {
        match self {
            FetchState::ReadingCache => FetchStateView::ReadingCache,
            FetchState::Fetching => FetchStateView::Fetching,
            FetchState::Rendering { html } => FetchStateView::Rendering { html: html@ },
            FetchState::Storing { text } => FetchStateView::Storing { text: text@ },
            FetchState::FetchingTitle { text } => FetchStateView::FetchingTitle { text: text@ },
            FetchState::StoringMetadata { text } => FetchStateView::StoringMetadata { text: text@ },
            FetchState::Done { text } => FetchStateView::Done { text: text@ },
            FetchState::Failed { error } => FetchStateView::Failed { error: error@ },
        }
    }
}

/// What came of the action that the last step asked for.
#[derive(Debug)]
pub enum FetchEvent {
    /// The cache holds the document's text.
    CacheHit { text: String },
    /// The cache does not hold the document's text, or it cannot be read.
    CacheMiss,
    /// The document was fetched, in the given format.
    Fetched { content: String, format: Format },
    /// The HTML was rendered as this text.
    Rendered { text: String },
    /// The title was found; `now` is the current time.
    TitleFetched { title: String, now: Timestamp },
    /// The files were written.
    Completed,
    /// The action failed, for the reason given.
    Failed { error: String },
}

/// What a [`FetchEvent`] holds, as mathematical values.
pub enum FetchEventView {
    CacheHit { text: Seq<char> },
    CacheMiss,
    Fetched { content: Seq<char>, format: Format },
    Rendered { text: Seq<char> },
    TitleFetched { title: Seq<char>, now: Timestamp },
    Completed,
    Failed { error: Seq<char> },
}

impl View for FetchEvent {
    type V = FetchEventView;

    open spec fn view(&self) -> FetchEventView {
        match self {
            FetchEvent::CacheHit { text } => FetchEventView::CacheHit { text: text@ },
            FetchEvent::CacheMiss => FetchEventView::CacheMiss,
            FetchEvent::Fetched { content, format } => FetchEventView::Fetched {
                content: content@,
                format: *format,
            },
            FetchEvent::Rendered { text } => FetchEventView::Rendered { text: text@ },
            FetchEvent::TitleFetched { title, now } => FetchEventView::TitleFetched {
                title: title@,
                now: *now,
            },
            FetchEvent::Completed => FetchEventView::Completed,
            FetchEvent::Failed { error } => FetchEventView::Failed { error: error@ },
        }
    }
}

/// What the caller is to do next.
#[derive(Debug)]
pub enum FetchAction {
    /// Read the file at `path`; report `CacheHit` with what it holds, or
    /// `CacheMiss`.
    ReadCache { path: String },
    /// Fetch the document; report `Fetched` or `Failed`.
    Fetch,
    /// Render the HTML as plain text wrapped to `width` columns; report
    /// `Rendered`, or `Failed` with the renderer's complaint.
    Render { html: String, width: usize },
    /// Carry out the file operations in order; report `Completed`, or
    /// `Failed` at the first that fails.
    Store { actions: Vec<FileAction> },
    /// Look up the title of the index record of this name; report
    /// `TitleFetched` or `Failed`.
    FetchTitle { name: String },
    /// Write the metadata to the document's metadata file; report
    /// `Completed` or `Failed`.
    StoreMetadata { metadata: CacheMetadata },
}

/// What a [`FetchAction`] holds, as mathematical values.
pub enum FetchActionView {
    ReadCache { path: Seq<char> },
    Fetch,
    Render { html: Seq<char>, width: usize },
    Store { actions: Seq<FileActionView> },
    FetchTitle { name: Seq<char> },
    StoreMetadata { metadata: CacheMetadataView },
}

impl View for FetchAction {
    type V = FetchActionView;

    open spec fn view(&self) -> FetchActionView {
        match self {
            FetchAction::ReadCache { path } => FetchActionView::ReadCache { path: path@ },
            FetchAction::Fetch => FetchActionView::Fetch,
            FetchAction::Render { html, width } => FetchActionView::Render {
                html: html@,
                width: *width,
            },
            FetchAction::Store { actions } => FetchActionView::Store {
                actions: actions.deep_view(),
            },
            FetchAction::FetchTitle { name } => FetchActionView::FetchTitle { name: name@ },
            FetchAction::StoreMetadata { metadata } => FetchActionView::StoreMetadata {
                metadata: metadata@,
            },
        }
    }
}

impl DeepView for FetchAction {
    type V = FetchActionView;

    open spec fn deep_view(&self) -> FetchActionView {
        self@
    }
}

/// One step of the pipeline: the state it is in now, what to tell the user,
/// and what the caller is to do next. Without an action the pipeline has
/// ended.
#[derive(Debug)]
pub struct Step {
    pub state: FetchState,
    pub notices: Vec<Notice>,
    pub action: Option<FetchAction>,
}

/// What a [`Step`] holds, as mathematical values.
pub struct StepView {
    pub state: FetchStateView,
    pub notices: Seq<NoticeView>,
    pub action: Option<FetchActionView>,
}

impl View for Step {
    type V = StepView;

    open spec fn view(&self) -> StepView {
        StepView {
            state: self.state@,
            notices: self.notices.deep_view(),
            action: self.action.deep_view(),
        }
    }
}

/// The step that begins a fetch.
pub open spec fn fetching() -> StepView {
    StepView {
        state: FetchStateView::Fetching,
        notices: seq![NoticeView::Fetching],
        action: Some(FetchActionView::Fetch),
    }
}

/// The step that ends the pipeline with `state`.
pub open spec fn ending(state: FetchStateView, notices: Seq<NoticeView>) -> StepView {
    StepView { state, notices, action: None }
}

/// The step that stores `text` as the text of `doc`.
pub open spec fn storing(
    root: Seq<char>,
    doc: DocumentId,
    text: Seq<char>,
    notices: Seq<NoticeView>,
) -> StepView {
    StepView {
        state: FetchStateView::Storing { text },
        notices,
        action: Some(
            FetchActionView::Store {
                actions: store_actions(root, document_path_of(root, doc, Format::Text), text),
            },
        ),
    }
}

/// The step that has fetched HTML rendered as text.
pub open spec fn rendering(html: Seq<char>) -> StepView {
    StepView {
        state: FetchStateView::Rendering { html },
        notices: seq![NoticeView::ConvertingFromHtml],
        action: Some(FetchActionView::Render { html, width: WRAP_WIDTH }),
    }
}

/// The first step for the document `doc` with the cache directory `root`:
/// unless a fresh copy is asked for, look into the cache.
pub open spec fn start_spec(root: Seq<char>, doc: DocumentId, refresh: bool) -> StepView {
    if refresh {
        fetching()
    } else {
        StepView {
            state: FetchStateView::ReadingCache,
            notices: Seq::empty(),
            action: Some(
                FetchActionView::ReadCache { path: document_path_of(root, doc, Format::Text) },
            ),
        }
    }
}

/// The step that follows `state` when `event` is reported.
///
/// Cached text is used as it is. Fetched text is stored as it came.
/// Fetched HTML is first rendered as text, and stored as that text, or as
/// it came where rendering fails; either way it is stored as the
/// document's text. Only then is the title looked up, and whatever goes
/// wrong from there on is told to the user and ends the pipeline with the
/// text all the same. An event that does not answer the state's action ends
/// the pipeline as failed.
pub open spec fn next(
    root: Seq<char>,
    doc: DocumentId,
    state: FetchStateView,
    event: FetchEventView,
) -> StepView {
    match (state, event) {
        (FetchStateView::ReadingCache, FetchEventView::CacheHit { text }) => ending(
            FetchStateView::Done { text },
            seq![NoticeView::UsingCachedCopy],
        ),
        (FetchStateView::ReadingCache, FetchEventView::CacheMiss) => fetching(),
        (FetchStateView::Fetching, FetchEventView::Fetched { content, format }) => match format {
            Format::Text => storing(root, doc, content, Seq::empty()),
            Format::Html => rendering(content),
        },
        (FetchStateView::Rendering { html }, FetchEventView::Rendered { text }) => storing(
            root,
            doc,
            text_or_raw_spec(html, Ok(text)),
            rendering_notices(Ok(text)),
        ),
        (FetchStateView::Rendering { html }, FetchEventView::Failed { error }) => storing(
            root,
            doc,
            text_or_raw_spec(html, Err(error)),
            rendering_notices(Err(error)),
        ),
        (FetchStateView::Fetching, FetchEventView::Failed { error }) => ending(
            FetchStateView::Failed { error },
            Seq::empty(),
        ),
        (FetchStateView::Storing { text }, FetchEventView::Completed) => StepView {
            state: FetchStateView::FetchingTitle { text },
            notices: Seq::empty(),
            action: Some(FetchActionView::FetchTitle { name: doc.name() }),
        },
        (FetchStateView::Storing { text }, FetchEventView::Failed { error }) => ending(
            FetchStateView::Failed { error },
            Seq::empty(),
        ),
        (FetchStateView::FetchingTitle { text }, FetchEventView::TitleFetched { title, now }) => {
            StepView {
                state: FetchStateView::StoringMetadata { text },
                notices: Seq::empty(),
                action: Some(
                    FetchActionView::StoreMetadata {
                        metadata: CacheMetadataView { title, cached_at: now },
                    },
                ),
            }
        },
        (FetchStateView::FetchingTitle { text }, FetchEventView::Failed { error }) => ending(
            FetchStateView::Done { text },
            seq![NoticeView::MetadataFailed { error }],
        ),
        (FetchStateView::StoringMetadata { text }, FetchEventView::Completed) => ending(
            FetchStateView::Done { text },
            Seq::empty(),
        ),
        (FetchStateView::StoringMetadata { text }, FetchEventView::Failed { error }) => ending(
            FetchStateView::Done { text },
            seq![NoticeView::MetadataFailed { error }],
        ),
        _ => ending(FetchStateView::Failed { error: "unexpected event"@ }, Seq::empty()),
    }
}

/// No notices.
fn no_notices() -> (r: Vec<Notice>)
    ensures
        r.deep_view() == Seq::<NoticeView>::empty(),
{
    let notices: Vec<Notice> = Vec::new();
    assert(notices.deep_view() =~= Seq::<NoticeView>::empty());
    notices
}

/// One notice.
fn one_notice(notice: Notice) -> (r: Vec<Notice>)
    ensures
        r.deep_view() == seq![notice@],
{
    let mut notices: Vec<Notice> = Vec::new();
    notices.push(notice);
    assert(notices.deep_view() =~= seq![notice@]);
    notices
}

/// The step that begins a fetch.
fn begin_fetch() -> (r: Step)
    ensures
        r@ == fetching(),
{
    Step {
        state: FetchState::Fetching,
        notices: one_notice(Notice::Fetching),
        action: Some(FetchAction::Fetch),
    }
}

/// The step that ends the pipeline with `state`.
fn end(state: FetchState, notices: Vec<Notice>) -> (r: Step)
    ensures
        r@ == ending(state@, notices.deep_view()),
{
    Step { state, notices, action: None }
}

/// The step that stores `text` as the text of `doc`.
fn store_text(cache: &CacheManager, doc: &DocumentType, text: String, notices: Vec<Notice>) -> (r:
    Step)
    ensures
        r@ == storing(cache.dir(), doc@, text@, notices.deep_view()),
{
    // Cache the text content
    let actions = cache.store_document(doc, Format::Text, text.as_str());
    Step { state: FetchState::Storing { text }, notices, action: Some(FetchAction::Store { actions }) }
}

/// Begins to get the text of `doc`: from the cache unless `refresh` asks
/// for a fresh copy, else by fetching it.
pub fn start(cache: &CacheManager, doc: &DocumentType, refresh: bool) -> (r: Step)
    ensures
        r@ == start_spec(cache.dir(), doc@, refresh),
{
    if refresh {
        begin_fetch()
    } else {
        // Check cache first (unless refresh requested)
        Step {
            state: FetchState::ReadingCache,
            notices: no_notices(),
            action: Some(FetchAction::ReadCache { path: cache.document_path(doc, Format::Text) }),
        }
    }
}

/// Takes the pipeline for `doc` from `state` one step further, given what
/// came of the action that `state` was waiting for.
pub fn advance(cache: &CacheManager, doc: &DocumentType, state: FetchState, event: FetchEvent) -> (r:
    Step)
    ensures
        r@ == next(cache.dir(), doc@, state@, event@),
{
    match (state, event) {
        (FetchState::ReadingCache, FetchEvent::CacheHit { text }) => end(
            FetchState::Done { text },
            one_notice(Notice::UsingCachedCopy),
        ),
        (FetchState::ReadingCache, FetchEvent::CacheMiss) => begin_fetch(),
        (FetchState::Fetching, FetchEvent::Fetched { content, format }) => match format {
            Format::Text => store_text(cache, doc, content, no_notices()),
            // Convert HTML to text if needed
            Format::Html => Step {
                state: FetchState::Rendering { html: content.clone() },
                notices: one_notice(Notice::ConvertingFromHtml),
                action: Some(FetchAction::Render { html: content, width: WRAP_WIDTH }),
            },
        },
        (FetchState::Rendering { html }, FetchEvent::Rendered { text }) => {
            let (text, notices) = text_or_raw(html, Ok(text));
            store_text(cache, doc, text, notices)
        },
        (FetchState::Rendering { html }, FetchEvent::Failed { error }) => {
            let (text, notices) = text_or_raw(html, Err(error));
            store_text(cache, doc, text, notices)
        },
        (FetchState::Fetching, FetchEvent::Failed { error }) => end(
            FetchState::Failed { error },
            no_notices(),
        ),
        (FetchState::Storing { text }, FetchEvent::Completed) => Step {
            state: FetchState::FetchingTitle { text },
            notices: no_notices(),
            action: Some(FetchAction::FetchTitle { name: doc.name() }),
        },
        (FetchState::Storing { text }, FetchEvent::Failed { error }) => end(
            FetchState::Failed { error },
            no_notices(),
        ),
        (FetchState::FetchingTitle { text }, FetchEvent::TitleFetched { title, now }) => Step {
            state: FetchState::StoringMetadata { text },
            notices: no_notices(),
            action: Some(
                FetchAction::StoreMetadata { metadata: CacheMetadata { title, cached_at: now } },
            ),
        },
        // Fetch and cache metadata (best effort - don't fail if this fails)
        (FetchState::FetchingTitle { text }, FetchEvent::Failed { error }) => end(
            FetchState::Done { text },
            one_notice(Notice::MetadataFailed { error }),
        ),
        (FetchState::StoringMetadata { text }, FetchEvent::Completed) => end(
            FetchState::Done { text },
            no_notices(),
        ),
        (FetchState::StoringMetadata { text }, FetchEvent::Failed { error }) => end(
            FetchState::Done { text },
            one_notice(Notice::MetadataFailed { error }),
        ),
        _ => end(FetchState::Failed { error: String::from_str("unexpected event") }, no_notices()),
    }
}

/// Unless a fresh copy is asked for, the pipeline first reads the cached
/// text, and where there is one it ends with that text at once: nothing is
/// fetched and nothing is written.
pub proof fn lemma_cached_text_is_used(root: Seq<char>, doc: DocumentId, text: Seq<char>)
    ensures
        start_spec(root, doc, false).action == Some(
            FetchActionView::ReadCache { path: document_path_of(root, doc, Format::Text) },
        ),
        next(
            root,
            doc,
            start_spec(root, doc, false).state,
            FetchEventView::CacheHit { text },
        ) == ending(FetchStateView::Done { text }, seq![NoticeView::UsingCachedCopy]),
        start_spec(root, doc, true) == fetching(),
        next(root, doc, start_spec(root, doc, false).state, FetchEventView::CacheMiss)
            == fetching(),
{
}

/// Fetched text is stored as it came. Fetched HTML is handed out to be
/// rendered at 80 columns; what is then stored is the rendered text, or the
/// HTML as it came where rendering failed.
pub proof fn lemma_fetched_is_made_text(
    root: Seq<char>,
    doc: DocumentId,
    content: Seq<char>,
    text: Seq<char>,
    error: Seq<char>,
)
    ensures
        next(
            root,
            doc,
            FetchStateView::Fetching,
            FetchEventView::Fetched { content, format: Format::Text },
        ) == storing(root, doc, content, Seq::empty()),
        next(
            root,
            doc,
            FetchStateView::Fetching,
            FetchEventView::Fetched { content, format: Format::Html },
        ) == (StepView {
            state: FetchStateView::Rendering { html: content },
            notices: seq![NoticeView::ConvertingFromHtml],
            action: Some(FetchActionView::Render { html: content, width: 80 }),
        }),
        next(
            root,
            doc,
            FetchStateView::Rendering { html: content },
            FetchEventView::Rendered { text },
        ) == storing(root, doc, text, Seq::empty()),
        next(
            root,
            doc,
            FetchStateView::Rendering { html: content },
            FetchEventView::Failed { error },
        ) == storing(root, doc, content, seq![NoticeView::ConversionFailed { error }]),
{
}

/// Whatever text the pipeline stores, it stores it in the text file of the
/// document and writes no other file: reading the text file then gives that
/// text, and reading the document's HTML file gives what it gave before.
pub proof fn lemma_text_is_stored_as_text(
    root: Seq<char>,
    doc: DocumentId,
    text: Seq<char>,
    notices: Seq<NoticeView>,
    files: Map<Seq<char>, Seq<char>>,
)
    ensures
        ({
            let step = storing(root, doc, text, notices);
            let text_path = document_path_of(root, doc, Format::Text);
            let html_path = document_path_of(root, doc, Format::Html);
            &&& step.state == FetchStateView::Storing { text }
            &&& step.action matches Some(FetchActionView::Store { actions })
            &&& cached(run(files, step.action->0->actions), text_path) == Some(text)
            &&& cached(run(files, step.action->0->actions), html_path) == cached(files, html_path)
        }),
{
    lemma_store_then_get(root, files, doc, Format::Text, text);
}

/// Once the text is stored, no failure takes it back: if the title cannot
/// be looked up, or cannot be stored, the pipeline tells the user and ends
/// with the text, asking for no further action.
pub proof fn lemma_metadata_failure_keeps_text(
    root: Seq<char>,
    doc: DocumentId,
    text: Seq<char>,
    title: Seq<char>,
    now: Timestamp,
    error: Seq<char>,
)
    ensures
        ({
            let state = FetchStateView::Storing { text };
            let stored = next(root, doc, state, FetchEventView::Completed);
            let no_title = next(root, doc, stored.state, FetchEventView::Failed { error });
            let titled = next(root, doc, stored.state, FetchEventView::TitleFetched { title, now });
            let not_written = next(root, doc, titled.state, FetchEventView::Failed { error });
            let written = next(root, doc, titled.state, FetchEventView::Completed);
            let done = FetchStateView::Done { text };
            &&& stored.action == Some(FetchActionView::FetchTitle { name: doc.name() })
            &&& no_title == ending(done, seq![NoticeView::MetadataFailed { error }])
            &&& not_written == ending(done, seq![NoticeView::MetadataFailed { error }])
            &&& written == ending(done, Seq::empty())
        }),
{
}

/// A failure to fetch the document, or to store its text, ends the
/// pipeline as failed with that error.
pub proof fn lemma_failure_is_fatal(
    root: Seq<char>,
    doc: DocumentId,
    text: Seq<char>,
    error: Seq<char>,
)
    ensures
        next(root, doc, FetchStateView::Fetching, FetchEventView::Failed { error }) == ending(
            FetchStateView::Failed { error },
            Seq::empty(),
        ),
        next(root, doc, FetchStateView::Storing { text }, FetchEventView::Failed { error })
            == ending(FetchStateView::Failed { error }, Seq::empty()),
{
}

} // verus!
