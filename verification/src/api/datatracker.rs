//! The Datatracker's document index: the query that is sent to it, and what
//! is made of its answer.
//!
//! Sending the query and decoding the answer's JSON are left to the caller;
//! this module builds the address and turns the decoded records into a
//! [`SearchResult`].

use vstd::prelude::*;
use vstd::string::StringExecFns;
use vstd::utf8::encode_utf8;
use crate::models::document::{Document, DocumentId, DocumentType, DocumentView};
use crate::models::search::{SearchFilter, SearchResult, SearchResultView};
use crate::models::timestamp::Timestamp;
use crate::text::decimal::{decimal, parse_u32, parse_u32_range, push_decimal};
use crate::text::pattern::{has_prefix, starts_with};
use crate::text::whitespace::chars_of;

verus! {

pub const DATATRACKER_BASE_URL: &'static str = "https://datatracker.ietf.org";

/// How many index records are asked for per document wanted: the index
/// returns many kinds of document that are dropped again here.
pub const OVERFETCH_FACTOR: u32 = 5;

/// Document as returned by the Datatracker API
#[derive(Debug)]
pub struct ApiDocument {
    pub name: String,
    pub title: String,
    pub abstract_text: Option<String>,
    pub pages: Option<u32>,
    pub time: Option<String>,
    pub std_level: Option<String>,
    pub stream: Option<String>,
    pub authors: Vec<String>,
}

/// What an [`ApiDocument`] holds, as mathematical values.
pub struct ApiDocumentView {
    pub name: Seq<char>,
    pub title: Seq<char>,
    pub abstract_text: Option<Seq<char>>,
    pub pages: Option<u32>,
    pub time: Option<Seq<char>>,
    pub std_level: Option<Seq<char>>,
    pub stream: Option<Seq<char>>,
    pub authors: Seq<Seq<char>>,
}

impl View for ApiDocument {
    type V = ApiDocumentView;

    open spec fn view(&self) -> ApiDocumentView {
        ApiDocumentView {
            name: self.name@,
            title: self.title@,
            abstract_text: self.abstract_text.deep_view(),
            pages: self.pages,
            time: self.time.deep_view(),
            std_level: self.std_level.deep_view(),
            stream: self.stream.deep_view(),
            authors: self.authors.deep_view(),
        }
    }
}

impl DeepView for ApiDocument {
    type V = ApiDocumentView;

    open spec fn deep_view(&self) -> ApiDocumentView {
        self@
    }
}

/// The paging part of the index's answer.
#[derive(Debug)]
pub struct SearchMeta {
    /// Where the next page is, if there is one.
    pub next: Option<String>,
}

/// Response from the Datatracker document search API
#[derive(Debug)]
pub struct SearchResponse {
    pub meta: SearchMeta,
    pub objects: Vec<ApiDocument>,
}

/// Whether a byte stands for itself in a percent-encoded text: an ASCII
/// letter or digit, or one of `-`, `.`, `_`, `~`.
pub open spec fn is_unreserved(b: u8) -> bool {
    ||| 0x30 <= b <= 0x39
    ||| 0x41 <= b <= 0x5A
    ||| 0x61 <= b <= 0x7A
    ||| b == 0x2D
    ||| b == 0x2E
    ||| b == 0x5F
    ||| b == 0x7E
}

/// The upper-case hexadecimal digit for `n`.
pub open spec fn hex_digit(n: u8) -> char
    recommends
        n < 16,
{
    if n < 10 {
        (0x30 + n) as char
    } else {
        (0x41 + n - 10) as char
    }
}

/// One byte, percent-encoded.
pub open spec fn percent_encoded_byte(b: u8) -> Seq<char> {
    if is_unreserved(b) {
        seq![b as char]
    } else {
        seq!['%', hex_digit(b / 16), hex_digit(b % 16)]
    }
}

/// A sequence of bytes, percent-encoded byte by byte.
pub open spec fn percent_encoded(bytes: Seq<u8>) -> Seq<char>
    decreases bytes.len(),
{
    if bytes.len() == 0 {
        Seq::empty()
    } else {
        percent_encoded(bytes.drop_last()) + percent_encoded_byte(bytes.last())
    }
}

/// Calls `urlencoding::encode`.
///
/// Trusted: the result is the UTF-8 encoding of `text` with every byte but
/// ASCII letters, digits and `-`, `.`, `_`, `~` replaced by `%` and the
/// byte's two upper-case hexadecimal digits.
#[verifier::external_body]
fn percent_encode(text: &str) -> (r: String)
    ensures
        r@ == percent_encoded(encode_utf8(text@)),
{
    urlencoding::encode(text).into_owned()
}

/// The instant that a text denotes when read as an RFC 3339 date and time,
/// as seconds since the Unix epoch and nanoseconds into the second; `None`
/// for a text that is no such date and time.
pub uninterp spec fn rfc3339_instant(text: Seq<char>) -> Option<(i64, u32)>;

/// Calls `chrono::DateTime::parse_from_rfc3339`, and reads the instant off
/// the result with `timestamp` and `timestamp_subsec_nanos`.
///
/// Trusted: the result depends on `text` alone. Nothing is claimed of which
/// texts are accepted nor of the instant they give.
#[verifier::external_body]
fn parse_rfc3339(text: &str) -> (r: Option<Timestamp>)
    ensures
        r matches Some(t) ==> rfc3339_instant(text@) == Some((t.secs, t.nanos)),
        r is None ==> rfc3339_instant(text@) is None,
{
    match chrono::DateTime::parse_from_rfc3339(text) {
        Ok(instant) => Some(
            Timestamp { secs: instant.timestamp(), nanos: instant.timestamp_subsec_nanos() },
        ),
        Err(_) => None,
    }
}

/// The instant as a [`Timestamp`].
pub open spec fn timestamp_of(instant: Option<(i64, u32)>) -> Option<Timestamp> {
    match instant {
        Some((secs, nanos)) => Some(Timestamp { secs, nanos }),
        None => None,
    }
}

/// When a record with the given `time` field was published: the instant the
/// field denotes, or nothing where the field is missing or malformed.
pub open spec fn published_at(time: Option<Seq<char>>) -> Option<Timestamp> {
    match time {
        Some(text) => timestamp_of(rfc3339_instant(text)),
        None => None,
    }
}

/// Whether a record of this name is an RFC or an Internet-Draft.
pub open spec fn is_rfc_or_draft_spec(name: Seq<char>) -> bool {
    has_prefix(name, "rfc"@) || has_prefix(name, "draft-"@)
}

/// The identifier that an index record's name stands for: the RFC of that
/// number for `rfc<number>`, and a draft of that very name otherwise.
pub open spec fn doc_type_of(name: Seq<char>) -> DocumentId {
    if has_prefix(name, "rfc"@) && parse_u32(name.skip(3)) is Some {
        DocumentId::Rfc(parse_u32(name.skip(3)).unwrap())
    } else {
        DocumentId::Draft(name)
    }
}

/// The document that an index record describes, given when it was
/// published.
pub open spec fn document_of(doc: ApiDocumentView, published: Option<Timestamp>) -> DocumentView {
    DocumentView {
        name: doc.name,
        title: doc.title,
        doc_type: doc_type_of(doc.name),
        abstract_text: doc.abstract_text,
        pages: doc.pages,
        published,
        status: doc.std_level,
        authors: doc.authors,
        stream: doc.stream,
        wg: None,
    }
}

/// The document that an index record describes.
pub open spec fn converted(doc: ApiDocumentView) -> DocumentView {
    document_of(doc, published_at(doc.time))
}

/// Check if a document name is an RFC or Internet-Draft
pub fn is_rfc_or_draft(name: &str) -> (r: bool)
    ensures
        r == is_rfc_or_draft_spec(name@),
{
    starts_with(name, "rfc") || starts_with(name, "draft-")
}

/// Parse document type from name
pub fn parse_doc_type(name: &str) -> (r: DocumentType)
    ensures
        r@ == doc_type_of(name@),
{
    let chars = chars_of(name);
    proof {
        reveal_strlit("rfc");
    }
    if chars.len() >= 3 && chars[0] == 'r' && chars[1] == 'f' && chars[2] == 'c' {
        assert(chars@.take(3) =~= "rfc"@);
        assert(chars@.subrange(3, chars.len() as int) =~= chars@.skip(3));
        if let Some(num) = parse_u32_range(&chars, 3, chars.len()) {
            return DocumentType::Rfc(num);
        }
    } else {
        assert(!has_prefix(name@, "rfc"@)) by {
            if has_prefix(name@, "rfc"@) {
                assert(name@.take(3)[0] == 'r');
                assert(name@.take(3)[1] == 'f');
                assert(name@.take(3)[2] == 'c');
            }
        }
    }
    DocumentType::Draft(String::from_str(name))
}

/// The document that an index record describes, given the instant that its
/// `time` field was read as.
pub fn document_from_api(doc: ApiDocument, published: Option<Timestamp>) -> (r: Document)
    ensures
        r@ == document_of(doc@, published),
{
    let doc_type = parse_doc_type(doc.name.as_str());
    Document {
        name: doc.name,
        title: doc.title,
        doc_type,
        abstract_text: doc.abstract_text,
        pages: doc.pages,
        published,
        status: doc.std_level,
        authors: doc.authors,
        stream: doc.stream,
        wg: None,
    }
}

/// Convert an API document to our Document model
pub fn convert_api_document(doc: ApiDocument) -> (r: Document)
    ensures
        r@ == converted(doc@),
{
    let published = match &doc.time {
        Some(text) => parse_rfc3339(text.as_str()),
        None => None,
    };
    document_from_api(doc, published)
}

/// How many records the index is asked for when `limit` documents are
/// wanted: five times as many, or as many as a `u32` can say.
pub open spec fn api_limit(limit: u32) -> u32 {
    if limit * OVERFETCH_FACTOR > u32::MAX {
        u32::MAX
    } else {
        (limit * OVERFETCH_FACTOR) as u32
    }
}

/// The address of the index query for `query`: a case-insensitive match on
/// the title, restricted to one document type where the filter asks for it.
pub open spec fn search_url_spec(query: Seq<char>, filter: SearchFilter, limit: u32) -> Seq<char> {
    let unfiltered = DATATRACKER_BASE_URL@ + "/api/v1/doc/document/?title__icontains="@
        + percent_encoded(encode_utf8(query)) + "&limit="@ + decimal(api_limit(limit) as nat)
        + "&format=json"@;
    match filter.api_param_spec() {
        Some(doc_type) => unfiltered + "&type="@ + doc_type,
        None => unfiltered,
    }
}

/// The address to fetch for a search.
pub fn search_url(query: &str, filter: SearchFilter, limit: u32) -> (r: String)
    ensures
        r@ == search_url_spec(query@, filter, limit),
{
    // Request more results than needed since we filter locally
    let api_limit: u32 = if limit > u32::MAX / OVERFETCH_FACTOR {
        u32::MAX
    } else {
        limit * OVERFETCH_FACTOR
    };
    // Search by title (not name) since that's where keywords like "bgp" appear
    let mut url = String::from_str(DATATRACKER_BASE_URL);
    url.append("/api/v1/doc/document/?title__icontains=");
    let encoded = percent_encode(query);
    url.append(encoded.as_str());
    url.append("&limit=");
    push_decimal(&mut url, api_limit as u64);
    url.append("&format=json");
    // Add type filter if specified
    if let Some(type_param) = filter.api_param() {
        url.append("&type=");
        url.append(type_param);
    }
    url
}

/// The first `n` elements of `s`, or all of `s` if it has fewer.
pub open spec fn first<A>(s: Seq<A>, n: nat) -> Seq<A> {
    if n < s.len() {
        s.take(n as int)
    } else {
        s
    }
}

/// The documents among the index's records: the RFCs and Internet-Drafts,
/// in the order in which the index gave them.
pub open spec fn selected(objects: Seq<ApiDocumentView>) -> Seq<DocumentView> {
    objects.filter(|doc: ApiDocumentView| is_rfc_or_draft_spec(doc.name)).map_values(
        |doc: ApiDocumentView| converted(doc),
    )
}

/// What a search returns for one page of the index's answer.
pub open spec fn search_result_of(
    objects: Seq<ApiDocumentView>,
    has_next: bool,
    query: Seq<char>,
    filter: SearchFilter,
    limit: u32,
) -> SearchResultView {
    let documents = first(selected(objects), limit as nat);
    SearchResultView {
        documents,
        has_more: has_next || documents.len() == limit,
        total_count: None,
        query,
        filter,
    }
}

/// `selected` takes the records one by one.
proof fn lemma_selected_step(objects: Seq<ApiDocumentView>, i: int)
    requires
        0 <= i < objects.len(),
    ensures
        selected(objects.take(i + 1)) == if is_rfc_or_draft_spec(objects[i].name) {
            selected(objects.take(i)).push(converted(objects[i]))
        } else {
            selected(objects.take(i))
        },
{
    reveal(Seq::filter);
    let pred = |doc: ApiDocumentView| is_rfc_or_draft_spec(doc.name);
    let conv = |doc: ApiDocumentView| converted(doc);
    let now = objects.take(i + 1);
    assert(now.drop_last() =~= objects.take(i));
    assert(now.last() == objects[i]);
    let before = objects.take(i).filter(pred);
    if pred(objects[i]) {
        assert(now.filter(pred) == before.push(objects[i]));
        assert(before.push(objects[i]).map_values(conv) =~= before.map_values(conv).push(
            converted(objects[i]),
        ));
    } else {
        assert(now.filter(pred) == before);
    }
}

/// Turns one page of the index's answer into a search result: the RFCs and
/// Internet-Drafts among its records, at most `limit` of them.
pub fn search_result(
    response: SearchResponse,
    query: &str,
    filter: SearchFilter,
    limit: u32,
) -> (r: SearchResult)
    ensures
        r@ == search_result_of(
            response.objects.deep_view(),
            response.meta.next is Some,
            query@,
            filter,
            limit,
        ),
{
    let has_next = response.meta.next.is_some();
    let ghost objects = response.objects.deep_view();
    let ghost records = response.objects@;
    let mut documents: Vec<Document> = Vec::new();
    proof {
        reveal(Seq::filter);
        assert(objects.take(0) =~= Seq::<ApiDocumentView>::empty());
        assert(selected(objects.take(0)) =~= Seq::<DocumentView>::empty());
        assert(documents.deep_view() =~= Seq::<DocumentView>::empty());
    }
    // Filter to only RFCs and drafts, then take up to the requested limit
    for doc in it: response.objects
        invariant
            it.seq() == records,
            objects.len() == records.len(),
            forall|j: int| 0 <= j < records.len() ==> objects[j] == #[trigger] records[j]@,
            documents.deep_view() == first(selected(objects.take(it.index() as int)), limit as nat),
    {
        let ghost i = it.index() as int;
        proof {
            lemma_selected_step(objects, i);
            assert(objects[i] == doc@);
        }
        let ghost before = selected(objects.take(i));
        let ghost kept = documents.deep_view();
        let ghost record = doc@;
        if documents.len() < limit as usize && is_rfc_or_draft(doc.name.as_str()) {
            let converted_doc = convert_api_document(doc);
            documents.push(converted_doc);
            assert(documents.deep_view() =~= kept.push(converted_doc@));
            assert(kept == before);
            assert(first(before.push(converted_doc@), limit as nat) =~= before.push(
                converted_doc@,
            ));
        } else {
            proof {
                if is_rfc_or_draft_spec(record.name) {
                    assert(kept.len() == limit);
                    assert(first(before.push(converted(record)), limit as nat) =~= kept);
                }
            }
        }
    }
    assert(objects.take(objects.len() as int) =~= objects);
    let full = documents.len() == limit as usize;
    SearchResult {
        documents,
        has_more: has_next || full,
        total_count: None,
        query: String::from_str(query),
        filter,
    }
}

/// A search result holds RFCs and Internet-Drafts only, never more than
/// were asked for, and says that there is more whenever the index named a
/// next page or the result is exactly as long as was asked for.
pub proof fn lemma_search_result(
    objects: Seq<ApiDocumentView>,
    has_next: bool,
    query: Seq<char>,
    filter: SearchFilter,
    limit: u32,
)
    ensures
        ({
            let r = search_result_of(objects, has_next, query, filter, limit);
            &&& r.documents.len() <= limit
            &&& r.documents.len() <= objects.len()
            &&& forall|i: int|
                0 <= i < r.documents.len() ==> is_rfc_or_draft_spec(
                    (#[trigger] r.documents[i]).name,
                )
            &&& has_next ==> r.has_more
            &&& r.documents.len() == limit ==> r.has_more
            &&& !has_next && r.documents.len() < limit ==> !r.has_more
        }),
{
    let pred = |doc: ApiDocumentView| is_rfc_or_draft_spec(doc.name);
    let kept = objects.filter(pred);
    objects.lemma_filter_len(pred);
    let r = search_result_of(objects, has_next, query, filter, limit);
    assert forall|i: int| 0 <= i < r.documents.len() implies is_rfc_or_draft_spec(
        (#[trigger] r.documents[i]).name,
    ) by {
        assert(r.documents[i] == converted(kept[i]));
        objects.lemma_filter_pred(pred, i);
        assert(pred(kept[i]));
    }
}

} // verus!
