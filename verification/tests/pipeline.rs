use rfc::pipeline::{
    advance, start, text_or_raw, FetchAction, FetchEvent, FetchState, Notice, Step,
};
use rfc::{CacheManager, DocumentType, FileAction, Format, Timestamp};

fn cache() -> CacheManager {
    CacheManager::with_dir("/c".to_string())
}

fn written(step: &Step) -> Vec<(String, String)> {
    match &step.action {
        Some(FetchAction::Store { actions }) => actions
            .iter()
            .filter_map(|action| match action {
                FileAction::Write { path, content } => Some((path.clone(), content.clone())),
                _ => None,
            })
            .collect(),
        other => panic!("no store action: {:?}", other),
    }
}

#[test]
fn test_cached_text_is_used() {
    let doc = DocumentType::Rfc(9000);
    let step = start(&cache(), &doc, false);
    assert!(matches!(step.state, FetchState::ReadingCache));
    assert!(step.notices.is_empty());
    assert!(matches!(
        &step.action,
        Some(FetchAction::ReadCache { path }) if path == "/c/documents/rfc9000.txt"
    ));

    let step = advance(&cache(), &doc, step.state, FetchEvent::CacheHit { text: "cached".to_string() });
    assert!(matches!(&step.state, FetchState::Done { text } if text == "cached"));
    assert!(step.action.is_none());
    assert!(matches!(step.notices.as_slice(), [Notice::UsingCachedCopy]));
    assert_eq!(step.notices[0].message(&doc), "Using cached copy of RFC 9000");
}

#[test]
fn test_cache_miss_fetches() {
    let doc = DocumentType::Rfc(9000);
    let step = start(&cache(), &doc, false);
    let step = advance(&cache(), &doc, step.state, FetchEvent::CacheMiss);
    assert!(matches!(step.state, FetchState::Fetching));
    assert!(matches!(step.action, Some(FetchAction::Fetch)));
    assert!(matches!(step.notices.as_slice(), [Notice::Fetching]));
    assert_eq!(step.notices[0].message(&doc), "Fetching RFC 9000...");
}

#[test]
fn test_refresh_skips_cache() {
    let doc = DocumentType::Draft("draft-ietf-x-01".to_string());
    let step = start(&cache(), &doc, true);
    assert!(matches!(step.state, FetchState::Fetching));
    assert!(matches!(step.action, Some(FetchAction::Fetch)));
    assert_eq!(step.notices[0].message(&doc), "Fetching draft-ietf-x-01...");
}

#[test]
fn test_text_is_stored_as_it_came() {
    let doc = DocumentType::Rfc(9000);
    let step = advance(
        &cache(),
        &doc,
        FetchState::Fetching,
        FetchEvent::Fetched { content: "plain <b>text</b>".to_string(), format: Format::Text },
    );
    assert!(matches!(&step.state, FetchState::Storing { text } if text == "plain <b>text</b>"));
    assert!(step.notices.is_empty());
    assert_eq!(
        written(&step),
        vec![("/c/documents/rfc9000.txt".to_string(), "plain <b>text</b>".to_string())]
    );
}

/// Carries out a `Render` action as the program does.
fn render(step: &Step) -> FetchEvent {
    match &step.action {
        Some(FetchAction::Render { html, width }) => {
            match html2text::from_read(html.as_bytes(), *width) {
                Ok(text) => FetchEvent::Rendered { text },
                Err(error) => FetchEvent::Failed { error: error.to_string() },
            }
        }
        other => panic!("no render action: {:?}", other),
    }
}

#[test]
fn test_html_is_stored_as_text() {
    let doc = DocumentType::Rfc(9000);
    let html = "<html><body><h1>QUIC</h1><p>Hello, world.</p></body></html>";
    let step = advance(
        &cache(),
        &doc,
        FetchState::Fetching,
        FetchEvent::Fetched { content: html.to_string(), format: Format::Html },
    );
    assert!(matches!(&step.state, FetchState::Rendering { html: kept } if kept == html));
    assert!(matches!(
        &step.action,
        Some(FetchAction::Render { html: given, width: 80 }) if given == html
    ));
    assert!(matches!(step.notices.as_slice(), [Notice::ConvertingFromHtml]));
    assert_eq!(
        step.notices[0].message(&doc),
        "Plain text not available, converting from HTML..."
    );

    let event = render(&step);
    let step = advance(&cache(), &doc, step.state, event);
    let files = written(&step);
    assert_eq!(files.len(), 1);
    assert_eq!(files[0].0, "/c/documents/rfc9000.txt");
    assert!(!files[0].1.contains('<'));
    assert!(files[0].1.contains("QUIC"));
    assert!(files[0].1.contains("Hello, world."));
    assert!(matches!(&step.state, FetchState::Storing { text } if *text == files[0].1));
    assert!(step.notices.is_empty());
}

#[test]
fn test_rendered_text_is_stored() {
    let doc = DocumentType::Draft("draft-ietf-x-01".to_string());
    let step = advance(
        &cache(),
        &doc,
        FetchState::Rendering { html: "<p>Hello</p>".to_string() },
        FetchEvent::Rendered { text: "Hello\n".to_string() },
    );
    assert_eq!(
        written(&step),
        vec![("/c/documents/draft-ietf-x-01.txt".to_string(), "Hello\n".to_string())]
    );
    assert!(matches!(&step.state, FetchState::Storing { text } if text == "Hello\n"));
    assert!(step.notices.is_empty());
}

#[test]
fn test_failed_rendering_stores_raw_html() {
    let doc = DocumentType::Rfc(9000);
    let step = advance(
        &cache(),
        &doc,
        FetchState::Rendering { html: "<p>raw</p>".to_string() },
        FetchEvent::Failed { error: "Output width not wide enough.".to_string() },
    );
    assert_eq!(
        written(&step),
        vec![("/c/documents/rfc9000.txt".to_string(), "<p>raw</p>".to_string())]
    );
    assert!(matches!(&step.state, FetchState::Storing { text } if text == "<p>raw</p>"));
    assert!(matches!(step.notices.as_slice(), [Notice::ConversionFailed { .. }]));
    assert_eq!(
        step.notices[0].message(&doc),
        "Warning: HTML to text conversion failed (Output width not wide enough.), displaying raw HTML"
    );
}

#[test]
fn test_failed_rendering_keeps_raw_html() {
    let (text, notices) =
        text_or_raw("<p>raw</p>".to_string(), Err("Output width not wide enough.".to_string()));
    assert_eq!(text, "<p>raw</p>");
    assert!(matches!(notices.as_slice(), [Notice::ConversionFailed { .. }]));
    assert_eq!(
        notices[0].message(&DocumentType::Rfc(1)),
        "Warning: HTML to text conversion failed (Output width not wide enough.), displaying raw HTML"
    );

    let (text, notices) = text_or_raw("<p>raw</p>".to_string(), Ok("raw\n".to_string()));
    assert_eq!(text, "raw\n");
    assert!(notices.is_empty());
}

#[test]
fn test_fetch_failure_is_fatal() {
    let doc = DocumentType::Rfc(9000);
    let step = advance(
        &cache(),
        &doc,
        FetchState::Fetching,
        FetchEvent::Failed { error: "HTTP 404".to_string() },
    );
    assert!(matches!(&step.state, FetchState::Failed { error } if error == "HTTP 404"));
    assert!(step.action.is_none());
    assert!(step.notices.is_empty());
}

#[test]
fn test_store_failure_is_fatal() {
    let doc = DocumentType::Rfc(9000);
    let step = advance(
        &cache(),
        &doc,
        FetchState::Storing { text: "text".to_string() },
        FetchEvent::Failed { error: "Failed to write document to cache".to_string() },
    );
    assert!(matches!(
        &step.state,
        FetchState::Failed { error } if error == "Failed to write document to cache"
    ));
    assert!(step.action.is_none());
}

#[test]
fn test_title_is_looked_up_after_storing() {
    let doc = DocumentType::Rfc(9000);
    let step = advance(
        &cache(),
        &doc,
        FetchState::Storing { text: "text".to_string() },
        FetchEvent::Completed,
    );
    assert!(matches!(&step.state, FetchState::FetchingTitle { text } if text == "text"));
    assert!(matches!(&step.action, Some(FetchAction::FetchTitle { name }) if name == "rfc9000"));
}

#[test]
fn test_metadata_failure_keeps_text() {
    let doc = DocumentType::Rfc(9000);
    let step = advance(
        &cache(),
        &doc,
        FetchState::Fetching,
        FetchEvent::Fetched { content: "the text".to_string(), format: Format::Text },
    );
    assert_eq!(
        written(&step),
        vec![("/c/documents/rfc9000.txt".to_string(), "the text".to_string())]
    );
    let step = advance(&cache(), &doc, step.state, FetchEvent::Completed);
    let step = advance(
        &cache(),
        &doc,
        step.state,
        FetchEvent::Failed { error: "index unreachable".to_string() },
    );
    assert!(matches!(&step.state, FetchState::Done { text } if text == "the text"));
    assert!(step.action.is_none());
    assert!(matches!(step.notices.as_slice(), [Notice::MetadataFailed { .. }]));
    assert_eq!(
        step.notices[0].message(&doc),
        "Warning: Failed to fetch metadata for RFC 9000: index unreachable"
    );
}

#[test]
fn test_metadata_is_stored() {
    let doc = DocumentType::Rfc(9000);
    let now = Timestamp { secs: 1700000000, nanos: 7 };
    let step = advance(
        &cache(),
        &doc,
        FetchState::FetchingTitle { text: "text".to_string() },
        FetchEvent::TitleFetched { title: "QUIC".to_string(), now },
    );
    assert!(matches!(&step.state, FetchState::StoringMetadata { text } if text == "text"));
    assert!(matches!(
        &step.action,
        Some(FetchAction::StoreMetadata { metadata })
            if metadata.title == "QUIC" && metadata.cached_at == now
    ));

    let done = advance(&cache(), &doc, step.state, FetchEvent::Completed);
    assert!(matches!(&done.state, FetchState::Done { text } if text == "text"));
    assert!(done.action.is_none());
    assert!(done.notices.is_empty());

    let failed = advance(
        &cache(),
        &doc,
        FetchState::StoringMetadata { text: "text".to_string() },
        FetchEvent::Failed { error: "disk full".to_string() },
    );
    assert!(matches!(&failed.state, FetchState::Done { text } if text == "text"));
    assert!(matches!(failed.notices.as_slice(), [Notice::MetadataFailed { error }] if error == "disk full"));
}

#[test]
fn test_unexpected_event_fails() {
    let doc = DocumentType::Rfc(9000);
    let step = advance(&cache(), &doc, FetchState::ReadingCache, FetchEvent::Completed);
    assert!(matches!(&step.state, FetchState::Failed { error } if error == "unexpected event"));
    assert!(step.action.is_none());
    let step = advance(
        &cache(),
        &doc,
        FetchState::Done { text: "text".to_string() },
        FetchEvent::CacheMiss,
    );
    assert!(matches!(&step.state, FetchState::Failed { error } if error == "unexpected event"));
}
