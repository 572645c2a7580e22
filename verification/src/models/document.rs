//! Document identifiers and documents.

use vstd::prelude::*;
use vstd::string::StringExecFns;
use vstd::utf8::is_ascii_chars;
use crate::api::datatracker::DATATRACKER_BASE_URL;
use crate::models::timestamp::Timestamp;
use crate::text::case::{
    ascii_lowercase, lemma_ascii_lowercase, lemma_lowercase_fixed, lowercase, to_lowercase,
};
use crate::text::decimal::{
    all_digits, decimal, digits_value, is_digit, lemma_decimal, parse_u32, parse_u32_range,
    push_decimal,
};
use crate::text::pattern::{contains, contains_chars, has_prefix, occurs_at};
use crate::text::whitespace::{
    chars_of, is_whitespace, lemma_trimmed, lemma_trimmed_ends, lemma_trimmed_fixed,
    lemma_trimmed_twice, lemma_trimmed_subrange, trim, trim_bounds, trimmed,
};

verus! {

/// The type of document - either an RFC or an Internet-Draft
#[derive(Debug, Eq, Hash)]
pub enum DocumentType {
    /// An RFC document with its number
    Rfc(u32),
    /// An Internet-Draft with its name
    Draft(String),
}

/// What a [`DocumentType`] stands for: the identifier as a mathematical
/// value.
pub enum DocumentId {
    Rfc(u32),
    Draft(Seq<char>),
}

impl View for DocumentType {
    type V = DocumentId;

    open spec fn view(&self) -> DocumentId {
        match self {
            DocumentType::Rfc(n) => DocumentId::Rfc(*n),
            DocumentType::Draft(name) => DocumentId::Draft(name@),
        }
    }
}

impl DeepView for DocumentType {
    type V = DocumentId;

    open spec fn deep_view(&self) -> DocumentId {
        self@
    }
}

impl Clone for DocumentType {
    fn clone(&self) -> (r: Self)
        ensures
            r@ == self@,
    {
        match self {
            DocumentType::Rfc(n) => DocumentType::Rfc(*n),
            DocumentType::Draft(name) => DocumentType::Draft(name.clone()),
        }
    }
}

impl PartialEq for DocumentType {
    fn eq(&self, other: &Self) -> (r: bool) {
        match (self, other) {
            (DocumentType::Rfc(a), DocumentType::Rfc(b)) => *a == *b,
            (DocumentType::Draft(a), DocumentType::Draft(b)) => *a == *b,
            _ => false,
        }
    }
}

impl vstd::std_specs::cmp::PartialEqSpecImpl for DocumentType {
    open spec fn obeys_eq_spec() -> bool {
        true
    }

    open spec fn eq_spec(&self, other: &Self) -> bool {
        self@ == other@
    }
}

impl DocumentId {
    /// The canonical name: `rfc<number>`, or the draft's name as it is.
    pub open spec fn name(self) -> Seq<char> {
        match self {
            DocumentId::Rfc(n) => "rfc"@ + decimal(n as nat),
            DocumentId::Draft(name) => name,
        }
    }

    /// The name shown to people: `RFC <number>`, or the draft's name as it is.
    pub open spec fn display_name(self) -> Seq<char> {
        match self {
            DocumentId::Rfc(n) => "RFC "@ + decimal(n as nat),
            DocumentId::Draft(name) => name,
        }
    }

    /// The address of the document's page in the IETF Datatracker.
    pub open spec fn datatracker_url(self) -> Seq<char> {
        DATATRACKER_BASE_URL@ + "/doc/"@ + self.name() + "/"@
    }
}

/// The form in which an identifier is recognised: trimmed, then lower-cased.
pub open spec fn normalized(s: Seq<char>) -> Seq<char> {
    lowercase(trimmed(s))
}

/// The number in `rfc<number>`, where whitespace may surround the number.
pub open spec fn rfc_number(t: Seq<char>) -> Option<u32> {
    if has_prefix(t, "rfc"@) {
        parse_u32(trimmed(t.skip(3)))
    } else {
        None
    }
}

/// The identifier that a normalized text denotes, if any.
pub open spec fn classify(t: Seq<char>) -> Option<DocumentId> {
    if rfc_number(t) is Some {
        Some(DocumentId::Rfc(rfc_number(t).unwrap()))
    } else if parse_u32(t) is Some {
        Some(DocumentId::Rfc(parse_u32(t).unwrap()))
    } else if has_prefix(t, "draft-"@) || contains(t, "draft"@) {
        Some(DocumentId::Draft(t))
    } else {
        None
    }
}

/// The identifier that `s` denotes, if any.
pub open spec fn parse_spec(s: Seq<char>) -> Option<DocumentId> {
    classify(normalized(s))
}

/// `s` trimmed, then lower-cased.
pub fn normalize(s: &str) -> (r: String)
    ensures
        r@ == normalized(s@),
{
    to_lowercase(trim(s))
}

/// The identifier that a user's word for a document denotes: what it
/// parses as, or else the draft whose name is `draft-` and the word,
/// trimmed and lower-cased.
pub open spec fn parse_document_spec(s: Seq<char>) -> DocumentId {
    match parse_spec(s) {
        Some(doc) => doc,
        None => DocumentId::Draft("draft-"@ + normalized(s)),
    }
}

/// The identifier that a text denotes which is trimmed and lower-cased
/// already, if any.
pub fn classify_text(t: &str) -> (r: Option<DocumentType>)
    ensures
        r is Some <==> classify(t@) is Some,
        r matches Some(doc) ==> classify(t@) == Some(doc@),
{
    let chars = chars_of(t);
    assert(t@.subrange(0, t@.len() as int) =~= t@);
    proof {
        reveal_strlit("rfc");
        reveal_strlit("draft");
        reveal_strlit("draft-");
    }
    // Try to parse as RFC number
    if chars.len() >= 3 && chars[0] == 'r' && chars[1] == 'f' && chars[2] == 'c' {
        assert(t@.take(3) =~= "rfc"@);
        assert(t@.subrange(3, t@.len() as int) =~= t@.skip(3));
        let (a, b) = trim_bounds(&chars, 3, chars.len());
        if let Some(n) = parse_u32_range(&chars, a, b) {
            return Some(DocumentType::Rfc(n));
        }
    } else {
        assert(!has_prefix(t@, "rfc"@)) by {
            if has_prefix(t@, "rfc"@) {
                assert(t@.take(3)[0] == 'r');
                assert(t@.take(3)[1] == 'f');
                assert(t@.take(3)[2] == 'c');
            }
        }
    }
    // Try to parse as plain number (assumed RFC)
    if let Some(n) = parse_u32_range(&chars, 0, chars.len()) {
        return Some(DocumentType::Rfc(n));
    }
    // Check if it looks like a draft name
    let pattern = chars_of("draft");
    assert(has_prefix(t@, "draft-"@) ==> contains(t@, "draft"@)) by {
        if has_prefix(t@, "draft-"@) {
            assert(t@.subrange(0, 5) =~= "draft"@) by {
                assert forall|i: int| 0 <= i < 5 implies t@[i] == "draft"@[i] by {
                    assert(t@.take(6)[i] == "draft-"@[i]);
                }
            }
            assert(occurs_at(t@, "draft"@, 0));
        }
    }
    if contains_chars(&chars, &pattern) {
        return Some(DocumentType::Draft(String::from_str(t)));
    }
    None
}

/// Parse document identifier into DocumentType. Every word denotes a
/// document: what does not parse is taken for the name of a draft.
pub fn parse_document(doc: &str) -> (r: DocumentType)
    ensures
        r@ == parse_document_spec(doc@),
{
    let word = normalize(doc);
    // First try the standard parser
    if let Some(doc_type) = classify_text(word.as_str()) {
        return doc_type;
    }
    // If standard parsing failed, assume it's a draft name without the prefix
    let mut draft_name = String::from_str("draft-");
    draft_name.append(word.as_str());
    DocumentType::Draft(draft_name)
}

impl DocumentType {
    /// Parse a document type from a string
    /// Handles formats like "rfc9000", "RFC 9000", "9000", or draft names
    pub fn parse(s: &str) -> (r: Option<Self>)
        ensures
            r is Some <==> parse_spec(s@) is Some,
            r matches Some(doc) ==> parse_spec(s@) == Some(doc@),
    {
        let lowered = normalize(s);
        classify_text(lowered.as_str())
    }

    /// Get the canonical name for this document
    pub fn name(&self) -> (r: String)
        ensures
            r@ == self@.name(),
    {
        match self {
            DocumentType::Rfc(num) => {
                let mut out = String::from_str("rfc");
                push_decimal(&mut out, *num as u64);
                out
            },
            DocumentType::Draft(name) => name.clone(),
        }
    }

    /// Get a display-friendly name
    pub fn display_name(&self) -> (r: String)
        ensures
            r@ == self@.display_name(),
    {
        match self {
            DocumentType::Rfc(num) => {
                let mut out = String::from_str("RFC ");
                push_decimal(&mut out, *num as u64);
                out
            },
            DocumentType::Draft(name) => name.clone(),
        }
    }

    /// The display-friendly name; what formatting the identifier prints.
    pub fn to_string(&self) -> (r: String)
        ensures
            r@ == self@.display_name(),
    {
        self.display_name()
    }

    /// Get the IETF Datatracker URL for this document
    pub fn datatracker_url(&self) -> (r: String)
        ensures
            r@ == self@.datatracker_url(),
    {
        let mut out = String::from_str(DATATRACKER_BASE_URL);
        out.append("/doc/");
        let name = self.name();
        out.append(name.as_str());
        out.append("/");
        out
    }
}

/// Digits are ASCII, are not whitespace, and have no lower-case form of
/// their own.
proof fn lemma_digits_plain(d: Seq<char>)
    requires
        all_digits(d),
    ensures
        is_ascii_chars(d),
        forall|i: int| 0 <= i < d.len() ==> !is_whitespace(#[trigger] d[i]),
        lowercase(d) == d,
        trimmed(d) == d,
{
    assert forall|i: int| 0 <= i < d.len() implies !is_whitespace(#[trigger] d[i]) && '\0'
        <= d[i] <= '\u{7f}' && !('A' <= d[i] <= 'Z') by {
        assert(is_digit(d[i]));
    }
    lemma_lowercase_fixed(d);
    lemma_trimmed_fixed(d);
}

/// A text that starts with a digit does not start with `rfc`.
proof fn lemma_digits_no_rfc(d: Seq<char>)
    requires
        d.len() > 0,
        is_digit(d[0]),
    ensures
        rfc_number(d) is None,
{
    reveal_strlit("rfc");
    if has_prefix(d, "rfc"@) {
        assert(d.take(3)[0] == 'r');
    }
}

/// Every `u32`, written in decimal with or without `rfc` before it, parses
/// as the RFC of that number.
pub proof fn lemma_parse_rfc_number(n: u32)
    ensures
        parse_spec("rfc"@ + decimal(n as nat)) == Some(DocumentId::Rfc(n)),
        parse_spec(decimal(n as nat)) == Some(DocumentId::Rfc(n)),
{
    let d = decimal(n as nat);
    lemma_decimal(n as nat);
    lemma_digits_plain(d);
    lemma_digits_no_rfc(d);
    assert(normalized(d) == d);

    reveal_strlit("rfc");
    let x = "rfc"@ + d;
    assert(x[0] == 'r');
    assert(x.last() == d.last());
    assert(is_digit(d.last()));
    lemma_trimmed_fixed(x);
    assert forall|i: int| 0 <= i < x.len() implies '\0' <= #[trigger] x[i] <= '\u{7f}' && !('A'
        <= x[i] <= 'Z') by {
        if i >= 3 {
            assert(x[i] == d[i - 3]);
            assert(is_digit(d[i - 3]));
        }
    }
    lemma_lowercase_fixed(x);
    assert(normalized(x) == x);
    assert(x.take(3) =~= "rfc"@);
    assert(x.skip(3) =~= d);
}

/// The display name of an RFC parses as that RFC.
proof fn lemma_parse_rfc_display_name(n: u32)
    ensures
        parse_spec(DocumentId::Rfc(n).display_name()) == Some(DocumentId::Rfc(n)),
{
    let d = decimal(n as nat);
    lemma_decimal(n as nat);
    lemma_digits_plain(d);
    reveal_strlit("RFC ");
    reveal_strlit("rfc");
    let y = "RFC "@ + d;
    assert(y[0] == 'R');
    assert(y.last() == d.last());
    assert(is_digit(d.last()));
    lemma_trimmed_fixed(y);
    assert forall|i: int| 0 <= i < y.len() implies '\0' <= #[trigger] y[i] <= '\u{7f}' by {
        if i >= 4 {
            assert(y[i] == d[i - 4]);
            assert(is_digit(d[i - 4]));
        }
    }
    let t = lowercase(y);
    assert(t == ascii_lowercase(y));
    assert(t.len() == y.len());
    assert(t[0] == 'r' && t[1] == 'f' && t[2] == 'c' && t[3] == ' ');
    assert(t.take(3) =~= "rfc"@);
    let rest = t.skip(3);
    assert forall|i: int| 1 <= i < rest.len() implies #[trigger] rest[i] == d[i - 1] by {
        assert(rest[i] == t[i + 3]);
        assert(y[i + 3] == d[i - 1]);
        assert(is_digit(d[i - 1]));
    }
    assert(rest[0] == ' ');
    assert(is_digit(d[0]));
    assert(is_digit(d.last()));
    assert(rest[rest.len() - 1] == d.last());
    lemma_trimmed(rest, 1, rest.len() as int);
    assert(rest.subrange(1, rest.len() as int) =~= d);
}

/// A text of nothing but whitespace denotes no document.
pub proof fn lemma_parse_blank(s: Seq<char>)
    requires
        forall|i: int| 0 <= i < s.len() ==> is_whitespace(#[trigger] s[i]),
    ensures
        parse_spec(s) is None,
{
    reveal_strlit("rfc");
    reveal_strlit("draft");
    reveal_strlit("draft-");
    lemma_trimmed(s, s.len() as int, s.len() as int);
    let t = trimmed(s);
    assert(t =~= Seq::<char>::empty());
    assert(lowercase(t) =~= t);
    assert forall|i: int| !occurs_at(t, "draft"@, i) by {}
}

/// A number too large for 32 bits denotes no document: it is no error, and
/// no RFC.
pub proof fn lemma_parse_overflow(d: Seq<char>)
    requires
        d.len() > 0,
        all_digits(d),
        digits_value(d) > u32::MAX,
    ensures
        parse_spec(d) is None,
{
    reveal_strlit("draft");
    reveal_strlit("draft-");
    lemma_digits_plain(d);
    lemma_digits_no_rfc(d);
    assert(is_digit(d[0]));
    assert(normalized(d) == d);
    assert(parse_u32(d) is None);
    assert forall|i: int| !occurs_at(d, "draft"@, i) by {
        if occurs_at(d, "draft"@, i) {
            assert(d.subrange(i, i + 5)[0] == 'd');
            assert(is_digit(d[i]));
        }
    }
    if has_prefix(d, "draft-"@) {
        assert(d.take(6)[0] == 'd');
    }
}

/// The name of a parsed draft is the input trimmed and lower-cased, holds
/// the word `draft` and so is not empty.
pub proof fn lemma_parsed_draft(s: Seq<char>)
    requires
        parse_spec(s) is Some,
        parse_spec(s).unwrap() is Draft,
    ensures
        parse_spec(s).unwrap()->Draft_0 == normalized(s),
        contains(normalized(s), "draft"@),
        normalized(s).len() >= 5,
{
    reveal_strlit("draft");
    reveal_strlit("draft-");
    let t = normalized(s);
    if has_prefix(t, "draft-"@) {
        assert(t.subrange(0, 5) =~= "draft"@) by {
            assert forall|i: int| 0 <= i < 5 implies t[i] == "draft"@[i] by {
                assert(t.take(6)[i] == "draft-"@[i]);
            }
        }
        assert(occurs_at(t, "draft"@, 0));
    }
    let i = choose|i: int| occurs_at(t, "draft"@, i);
    assert(occurs_at(t, "draft"@, i));
}

/// Normalizing ASCII text a second time changes nothing.
pub proof fn lemma_normalized_ascii(s: Seq<char>)
    requires
        is_ascii_chars(s),
    ensures
        normalized(normalized(s)) == normalized(s),
{
    let t = trimmed(s);
    lemma_trimmed_ends(s);
    lemma_trimmed_subrange(s);
    lemma_ascii_lowercase(t);
    let l = lowercase(t);
    if l.len() > 0 {
        assert(is_whitespace(l[0]) == is_whitespace(t[0]));
        assert(is_whitespace(l[l.len() - 1]) == is_whitespace(t[l.len() - 1]));
    }
    lemma_trimmed_fixed(l);
}

/// For ASCII input, the draft that a user's word denotes has a name that
/// is trimmed, lower-cased and not empty, and that name parses as that
/// draft.
pub proof fn lemma_parse_document_ascii(s: Seq<char>)
    requires
        is_ascii_chars(s),
        parse_document_spec(s) is Draft,
    ensures
        ({
            let name = parse_document_spec(s)->Draft_0;
            &&& name.len() >= 5
            &&& trimmed(name) == name
            &&& lowercase(name) == name
            &&& parse_spec(name) == Some(parse_document_spec(s))
        }),
{
    reveal_strlit("rfc");
    reveal_strlit("draft-");
    reveal_strlit("draft");
    let t = normalized(s);
    lemma_normalized_ascii(s);
    lemma_trimmed_ends(s);
    lemma_trimmed_subrange(s);
    lemma_ascii_lowercase(trimmed(s));
    assert(is_ascii_chars(t));
    lemma_trimmed_ends(t);
    if parse_spec(s) is Some {
        lemma_parsed_draft(s);
        let name = t;
        assert(trimmed(t).len() <= t.len());
        assert(trimmed(name) == name) by {
            lemma_trimmed_twice(name);
        }
        lemma_ascii_lowercase(name);
    } else {
        let name = "draft-"@ + t;
        assert(trimmed(t) == t) by {
            lemma_trimmed_twice(t);
        }
        lemma_ascii_lowercase(t);
        assert(lowercase(t) == t);
        assert(name[0] == 'd');
        if t.len() > 0 {
            assert(name.last() == t.last());
            assert(trimmed(t)[0] == t[0]);
        } else {
            assert(name.last() == '-');
        }
        lemma_trimmed_fixed(name);
        assert forall|i: int| 0 <= i < name.len() implies '\0' <= #[trigger] name[i] <= '\u{7f}'
            && !('A' <= name[i] <= 'Z') by {
            if i >= 6 {
                assert(name[i] == t[i - 6]);
                assert(ascii_lowercase(t)[i - 6] == t[i - 6]);
            }
        }
        lemma_lowercase_fixed(name);
        assert(normalized(name) == name);
        assert(!has_prefix(name, "rfc"@)) by {
            if has_prefix(name, "rfc"@) {
                assert(name.take(3)[0] == 'r');
            }
        }
        assert(parse_u32(name) is None) by {
            assert(!is_digit(name[0]));
        }
        assert(name.take(6) =~= "draft-"@);
    }
}

/// Parsing the display name of a parsed identifier gives the identifier
/// back.
///
/// For a draft this asks that the parsed name is stable under
/// normalization, which [`lemma_normalized_ascii`] shows of every ASCII
/// input; for an RFC it asks nothing.
pub proof fn lemma_parse_display_name(s: Seq<char>)
    requires
        parse_spec(s) is Some,
        parse_spec(s) matches Some(DocumentId::Draft(name)) ==> normalized(name) == name,
    ensures
        parse_spec(parse_spec(s).unwrap().display_name()) == parse_spec(s),
{
    match parse_spec(s).unwrap() {
        DocumentId::Rfc(n) => {
            lemma_parse_rfc_display_name(n);
        },
        DocumentId::Draft(name) => {
            assert(name == normalized(s));
        },
    }
}

/// Parsing the display name of an identifier parsed from ASCII text gives
/// the identifier back.
pub proof fn lemma_parse_display_name_ascii(s: Seq<char>)
    requires
        is_ascii_chars(s),
        parse_spec(s) is Some,
    ensures
        parse_spec(parse_spec(s).unwrap().display_name()) == parse_spec(s),
{
    lemma_normalized_ascii(s);
    lemma_parse_display_name(s);
}

/// Document content format
#[derive(Debug, Clone, Copy, PartialEq, Eq, Structural)]
pub enum Format {
    Html,
    Text,
}

impl Format {
    /// The file extension under which content of this format is stored.
    pub open spec fn extension_spec(self) -> Seq<char> {
        match self {
            Format::Html => "html"@,
            Format::Text => "txt"@,
        }
    }

    pub fn extension(&self) -> (r: &'static str)
        ensures
            r@ == self.extension_spec(),
    {
        match self {
            Format::Html => "html",
            Format::Text => "txt",
        }
    }
}

/// An IETF document (RFC or Internet-Draft)
#[derive(Debug, Clone)]
pub struct Document {
    /// Internal name (e.g., "rfc9000" or "draft-ietf-quic-transport-34")
    pub name: String,
    /// Human-readable title
    pub title: String,
    /// Document type
    pub doc_type: DocumentType,
    /// Abstract text
    pub abstract_text: Option<String>,
    /// Number of pages
    pub pages: Option<u32>,
    /// Publication date
    pub published: Option<Timestamp>,
    /// Document status (e.g., "Standards Track", "Informational")
    pub status: Option<String>,
    /// List of authors
    pub authors: Vec<String>,
    /// Stream (e.g., "IETF", "IAB", "IRTF")
    pub stream: Option<String>,
    /// Working group
    pub wg: Option<String>,
}

/// What a [`Document`] holds, as mathematical values.
pub struct DocumentView {
    pub name: Seq<char>,
    pub title: Seq<char>,
    pub doc_type: DocumentId,
    pub abstract_text: Option<Seq<char>>,
    pub pages: Option<u32>,
    pub published: Option<Timestamp>,
    pub status: Option<Seq<char>>,
    pub authors: Seq<Seq<char>>,
    pub stream: Option<Seq<char>>,
    pub wg: Option<Seq<char>>,
}

impl View for Document {
    type V = DocumentView;

    open spec fn view(&self) -> DocumentView {
        DocumentView {
            name: self.name@,
            title: self.title@,
            doc_type: self.doc_type@,
            abstract_text: self.abstract_text.deep_view(),
            pages: self.pages,
            published: self.published,
            status: self.status.deep_view(),
            authors: self.authors.deep_view(),
            stream: self.stream.deep_view(),
            wg: self.wg.deep_view(),
        }
    }
}

impl DeepView for Document {
    type V = DocumentView;

    open spec fn deep_view(&self) -> DocumentView {
        self@
    }
}

/// `title` if it has at most `max_len` characters; otherwise its first
/// `max_len - 3` characters (none if `max_len` is under 3) followed by `...`.
pub open spec fn truncated(title: Seq<char>, max_len: nat) -> Seq<char> {
    if title.len() <= max_len {
        title
    } else if max_len >= 3 {
        title.take(max_len - 3) + "..."@
    } else {
        "..."@
    }
}

/// `title` cut to `max_len` characters, the last three of them an ellipsis.
pub fn truncate(title: &str, max_len: usize) -> (r: String)
    ensures
        r@ == truncated(title@, max_len as nat),
{
    let count = title.unicode_len();
    if count <= max_len {
        String::from_str(title)
    } else {
        let keep = if max_len >= 3 {
            max_len - 3
        } else {
            0
        };
        let mut out = String::from_str(title.substring_char(0, keep));
        out.append("...");
        assert(title@.subrange(0, keep as int) =~= title@.take(keep as int));
        assert(title@.take(0) + "..."@ =~= "..."@);
        out
    }
}

impl Document {
    /// Create a new document with minimal information
    pub fn new(name: String, title: String, doc_type: DocumentType) -> (r: Self)
        ensures
            r@ == (DocumentView {
                name: name@,
                title: title@,
                doc_type: doc_type@,
                abstract_text: None,
                pages: None,
                published: None,
                status: None,
                authors: Seq::empty(),
                stream: None,
                wg: None,
            }),
    {
        let r = Self {
            name,
            title,
            doc_type,
            abstract_text: None,
            pages: None,
            published: None,
            status: None,
            authors: Vec::new(),
            stream: None,
            wg: None,
        };
        assert(r.authors.deep_view() =~= Seq::<Seq<char>>::empty());
        r
    }

    /// Get a short display title (truncated if necessary)
    pub fn short_title(&self, max_len: usize) -> (r: String)
        ensures
            r@ == truncated(self@.title, max_len as nat),
    {
        truncate(self.title.as_str(), max_len)
    }
}

} // verus!
