//! What is printed: titles cut to fit, and the lines that show search
//! results and the content of the cache.

use vstd::prelude::*;
use vstd::string::StringExecFns;
use vstd::utf8::encode_utf8;
use crate::cache::storage::{CachedDocument, CachedDocumentView};
use crate::models::document::{truncate, truncated, Document, DocumentView};
use crate::models::search::{SearchResult, SearchResultView};
use crate::text::decimal::{decimal, push_decimal};

verus! {

/// The width of a printed line, in columns.
pub const LINE_WIDTH: usize = 80;

/// The width of the name column where there are no names.
pub const DEFAULT_NAME_WIDTH: usize = 10;

/// The columns of a line that are neither name nor title.
pub const MARGIN: usize = 4;

/// The widest that a title is printed unless full titles are asked for.
pub const MAX_TITLE_WIDTH: usize = 77;

/// Truncate title to a maximum width
pub fn truncate_title(title: &str, max_width: usize) -> (r: String)
    ensures
        r@ == truncated(title@, max_width as nat),
{
    truncate(title, max_width)
}

/// The length of `s` in bytes.
pub open spec fn byte_len(s: Seq<char>) -> nat {
    encode_utf8(s).len()
}

/// The greatest length in bytes among `names`; 0 if there are none.
pub open spec fn widest(names: Seq<Seq<char>>) -> nat
    decreases names.len(),
{
    if names.len() == 0 {
        0
    } else if byte_len(names.last()) > widest(names.drop_last()) {
        byte_len(names.last())
    } else {
        widest(names.drop_last())
    }
}

/// The width of the name column: that of the widest name.
pub open spec fn name_width_of(names: Seq<Seq<char>>) -> nat {
    if names.len() == 0 {
        DEFAULT_NAME_WIDTH as nat
    } else {
        widest(names)
    }
}

/// The width to which titles are cut: what the name column and the margin
/// leave of the line, at most 77 columns; or no limit.
pub open spec fn title_width_of(name_width: nat, wide: bool) -> nat {
    if wide {
        usize::MAX as nat
    } else if name_width + MARGIN >= LINE_WIDTH {
        0
    } else if LINE_WIDTH - name_width - MARGIN > MAX_TITLE_WIDTH {
        MAX_TITLE_WIDTH as nat
    } else {
        (LINE_WIDTH - name_width - MARGIN) as nat
    }
}

/// `n` spaces.
pub open spec fn spaces(n: nat) -> Seq<char> {
    Seq::new(n, |i: int| ' ')
}

/// `name` with spaces behind it up to `width` characters.
pub open spec fn padded(name: Seq<char>, width: nat) -> Seq<char> {
    if name.len() >= width {
        name
    } else {
        name + spaces((width - name.len()) as nat)
    }
}

/// One line of a listing: the name in its column, two spaces, the title.
pub open spec fn listing_line_of(name: Seq<char>, title: Seq<char>, name_width: nat) -> Seq<char> {
    padded(name, name_width) + "  "@ + title
}

/// The width of the name column for these names.
pub fn name_width(names: &Vec<String>) -> (r: usize)
    ensures
        r == name_width_of(names.deep_view()),
{
    if names.len() == 0 {
        return DEFAULT_NAME_WIDTH;
    }
    let ghost all = names.deep_view();
    let mut width: usize = 0;
    let mut i: usize = 0;
    assert(all.take(0) =~= Seq::<Seq<char>>::empty());
    while i < names.len()
        invariant
            i <= names.len(),
            all == names.deep_view(),
            width == widest(all.take(i as int)),
        decreases names.len() - i,
    {
        assert(all.take(i + 1).drop_last() =~= all.take(i as int));
        assert(all.take(i + 1).last() == names[i as int]@);
        let len = names[i].as_str().as_bytes().len();
        if len > width {
            width = len;
        }
        i = i + 1;
    }
    assert(all.take(i as int) =~= all);
    width
}

/// The width to which titles are cut beside a name column of this width.
pub fn title_width(name_width: usize, wide: bool) -> (r: usize)
    ensures
        r == title_width_of(name_width as nat, wide),
{
    if wide {
        usize::MAX
    } else {
        // Available width for title: 80 total - name - 2 separator - some margin
        let available: usize = if name_width >= LINE_WIDTH {
            0
        } else if LINE_WIDTH - name_width <= MARGIN {
            0
        } else {
            LINE_WIDTH - name_width - MARGIN
        };
        if available > MAX_TITLE_WIDTH {
            MAX_TITLE_WIDTH
        } else {
            available
        }
    }
}

/// One line of a listing.
pub fn listing_line(name: &str, title: &str, name_width: usize) -> (r: String)
    ensures
        r@ == listing_line_of(name@, title@, name_width as nat),
{
    let count = name.unicode_len();
    let mut line = String::from_str(name);
    proof {
        reveal_strlit(" ");
    }
    if count < name_width {
        let mut i: usize = count;
        assert(spaces(0) =~= Seq::<char>::empty());
        assert(name@ + spaces(0) =~= name@);
        while i < name_width
            invariant
                count <= i <= name_width,
                count == name@.len(),
                " "@ == seq![' '],
                line@ == name@ + spaces((i - count) as nat),
            decreases name_width - i,
        {
            line.append(" ");
            assert(spaces((i - count) as nat) + seq![' '] =~= spaces((i + 1 - count) as nat));
            assert(line@ =~= name@ + spaces((i + 1 - count) as nat));
            i = i + 1;
        }
    }
    line.append("  ");
    line.append(title);
    line
}

/// The line above the results of a search: how many are shown, and of how
/// many where the index said so.
pub open spec fn search_heading(shown: nat, total: Option<u32>, has_more: bool) -> Seq<char> {
    match total {
        Some(total) => if has_more {
            "\nShowing "@ + decimal(shown) + " of "@ + decimal(total as nat)
                + " results (use -l to show more):\n"@
        } else {
            "\nFound "@ + decimal(total as nat) + " results:\n"@
        },
        None => if has_more {
            "\nShowing "@ + decimal(shown) + " results (more available, use -l to show more):\n"@
        } else {
            "\nFound "@ + decimal(shown) + " results:\n"@
        },
    }
}

/// The canonical names of the documents.
pub open spec fn document_names(documents: Seq<DocumentView>) -> Seq<Seq<char>> {
    documents.map_values(|doc: DocumentView| doc.doc_type.name())
}

/// The line that shows one found document.
pub open spec fn result_line(doc: DocumentView, name_width: nat) -> Seq<char> {
    listing_line_of(
        doc.doc_type.name(),
        truncated(doc.title, title_width_of(name_width, false)),
        name_width,
    )
}

/// The lines that show the result of a search.
pub open spec fn search_report_of(result: SearchResultView) -> Seq<Seq<char>> {
    if result.documents.len() == 0 {
        seq!["No results found for '"@ + result.query + "'"@]
    } else {
        let name_width = name_width_of(document_names(result.documents));
        seq![search_heading(result.documents.len(), result.total_count, result.has_more)]
            + result.documents.map_values(|doc: DocumentView| result_line(doc, name_width))
            + seq!["\nUse 'rfc <document>' to read a document"@]
    }
}

/// The line above the results of a search.
fn heading(shown: usize, total: Option<u32>, has_more: bool) -> (r: String)
    ensures
        r@ == search_heading(shown as nat, total, has_more),
{
    match total {
        Some(total) => {
            if has_more {
                let mut line = String::from_str("\nShowing ");
                push_decimal(&mut line, shown as u64);
                line.append(" of ");
                push_decimal(&mut line, total as u64);
                line.append(" results (use -l to show more):\n");
                line
            } else {
                let mut line = String::from_str("\nFound ");
                push_decimal(&mut line, total as u64);
                line.append(" results:\n");
                line
            }
        },
        None => {
            // Fallback if total count not available
            if has_more {
                let mut line = String::from_str("\nShowing ");
                push_decimal(&mut line, shown as u64);
                line.append(" results (more available, use -l to show more):\n");
                line
            } else {
                let mut line = String::from_str("\nFound ");
                push_decimal(&mut line, shown as u64);
                line.append(" results:\n");
                line
            }
        },
    }
}

/// The lines that show the result of a search.
pub fn search_report(result: &SearchResult) -> (r: Vec<String>)
    ensures
        r.deep_view() == search_report_of(result@),
{
    let mut lines: Vec<String> = Vec::new();
    let ghost documents = result@.documents;
    if result.documents.len() == 0 {
        let mut line = String::from_str("No results found for '");
        line.append(result.query.as_str());
        line.append("'");
        lines.push(line);
        assert(lines.deep_view() =~= search_report_of(result@));
        return lines;
    }
    // Calculate max name width for alignment (80 char total line width)
    let mut names: Vec<String> = Vec::new();
    let mut i: usize = 0;
    while i < result.documents.len()
        invariant
            i <= result.documents.len(),
            documents == result.documents.deep_view(),
            names.len() == i,
            forall|j: int|
                0 <= j < i ==> (#[trigger] names[j])@ == result.documents[j].doc_type@.name(),
        decreases result.documents.len() - i,
    {
        names.push(result.documents[i].doc_type.name());
        i = i + 1;
    }
    assert(names.deep_view() =~= document_names(documents));
    let width = name_width(&names);
    let title_width = title_width(width, false);

    lines.push(heading(result.documents.len(), result.total_count, result.has_more));
    let ghost head = lines.deep_view();
    assert(head =~= seq![
        search_heading(documents.len(), result.total_count, result.has_more),
    ]);
    let mut i: usize = 0;
    while i < result.documents.len()
        invariant
            i <= result.documents.len(),
            documents == result.documents.deep_view(),
            names.len() == result.documents.len(),
            forall|j: int|
                0 <= j < names.len() ==> (#[trigger] names[j])@ == result.documents[j].doc_type@.name(),
            title_width == title_width_of(width as nat, false),
            lines.deep_view().len() == i + 1,
            lines.deep_view()[0] == head[0],
            head.len() == 1,
            forall|j: int|
                0 <= j < i ==> #[trigger] lines.deep_view()[j + 1] == result_line(
                    documents[j],
                    width as nat,
                ),
        decreases result.documents.len() - i,
    {
        let ghost before = lines.deep_view();
        let title = truncate_title(result.documents[i].title.as_str(), title_width);
        let line = listing_line(names[i].as_str(), title.as_str(), width);
        assert(line@ == result_line(documents[i as int], width as nat));
        lines.push(line);
        assert(lines.deep_view() =~= before.push(line@));
        i = i + 1;
    }
    let ghost before = lines.deep_view();
    lines.push(String::from_str("\nUse 'rfc <document>' to read a document"));
    assert(lines.deep_view() =~= before.push("\nUse 'rfc <document>' to read a document"@));
    proof {
        let expected = search_report_of(result@);
        let shown = lines.deep_view();
        assert(expected.len() == shown.len());
        assert forall|k: int| 0 <= k < shown.len() implies shown[k] == expected[k] by {
            if 1 <= k < shown.len() - 1 {
                let j = k - 1;
                assert(before[j + 1] == result_line(documents[j], width as nat));
            }
        }
        assert(shown =~= expected);
    }
    lines
}

/// The canonical names of the cached documents.
pub open spec fn cached_names(cached: Seq<CachedDocumentView>) -> Seq<Seq<char>> {
    cached.map_values(|doc: CachedDocumentView| doc.doc_type.name())
}

/// The line that shows one cached document: its title, cut to fit, or a
/// note that it has none.
pub open spec fn cached_line(doc: CachedDocumentView, name_width: nat, wide: bool) -> Seq<char> {
    match doc.metadata {
        Some(metadata) => listing_line_of(
            doc.doc_type.name(),
            truncated(metadata.title, title_width_of(name_width, wide)),
            name_width,
        ),
        None => listing_line_of(doc.doc_type.name(), "(title unavailable)"@, name_width),
    }
}

/// How many of the cached documents have no metadata.
pub open spec fn missing_titles(cached: Seq<CachedDocumentView>) -> nat
    decreases cached.len(),
{
    if cached.len() == 0 {
        0
    } else if cached.last().metadata is None {
        missing_titles(cached.drop_last()) + 1
    } else {
        missing_titles(cached.drop_last())
    }
}

/// The line below a listing in which `missing` documents have no title.
pub open spec fn missing_note(missing: nat) -> Seq<char> {
    "\n("@ + decimal(missing) + " document"@ + (if missing == 1 {
        ""@
    } else {
        "s"@
    }) + " without title - re-cache with --fresh to fetch metadata)"@
}

/// The lines that show what the cache holds.
pub open spec fn cache_report_of(cached: Seq<CachedDocumentView>, wide: bool) -> Seq<Seq<char>> {
    if cached.len() == 0 {
        seq!["Cache is empty"@]
    } else {
        let name_width = name_width_of(cached_names(cached));
        let listing = seq!["Cached documents ("@ + decimal(cached.len()) + "):\n"@]
            + cached.map_values(|doc: CachedDocumentView| cached_line(doc, name_width, wide));
        if missing_titles(cached) > 0 {
            listing + seq![missing_note(missing_titles(cached))]
        } else {
            listing
        }
    }
}

/// The lines that show what the cache holds, with full titles if `wide`.
pub fn cache_report(cached: &Vec<CachedDocument>, wide: bool) -> (r: Vec<String>)
    ensures
        r.deep_view() == cache_report_of(cached.deep_view(), wide),
{
    let mut lines: Vec<String> = Vec::new();
    let ghost documents = cached.deep_view();
    if cached.len() == 0 {
        lines.push(String::from_str("Cache is empty"));
        assert(lines.deep_view() =~= cache_report_of(documents, wide));
        return lines;
    }
    // Calculate max name width for alignment (80 char total line width)
    let mut names: Vec<String> = Vec::new();
    let mut i: usize = 0;
    while i < cached.len()
        invariant
            i <= cached.len(),
            names.len() == i,
            forall|j: int| 0 <= j < i ==> (#[trigger] names[j])@ == cached[j].doc_type@.name(),
        decreases cached.len() - i,
    {
        names.push(cached[i].doc_type.name());
        i = i + 1;
    }
    assert(names.deep_view() =~= cached_names(documents));
    let width = name_width(&names);
    let title_width = title_width(width, wide);

    let mut first = String::from_str("Cached documents (");
    push_decimal(&mut first, cached.len() as u64);
    first.append("):\n");
    lines.push(first);
    let ghost head = lines.deep_view()[0];
    let mut missing_count: usize = 0;
    let mut i: usize = 0;
    assert(documents.take(0) =~= Seq::<CachedDocumentView>::empty());
    while i < cached.len()
        invariant
            i <= cached.len(),
            documents == cached.deep_view(),
            names.len() == cached.len(),
            forall|j: int|
                0 <= j < names.len() ==> (#[trigger] names[j])@ == cached[j].doc_type@.name(),
            title_width == title_width_of(width as nat, wide),
            lines.deep_view().len() == i + 1,
            lines.deep_view()[0] == head,
            forall|j: int|
                0 <= j < i ==> #[trigger] lines.deep_view()[j + 1] == cached_line(
                    documents[j],
                    width as nat,
                    wide,
                ),
            missing_count == missing_titles(documents.take(i as int)),
            missing_count <= i,
        decreases cached.len() - i,
    {
        let ghost before = lines.deep_view();
        assert(documents.take(i + 1).drop_last() =~= documents.take(i as int));
        assert(documents.take(i + 1).last() == documents[i as int]);
        let line = match &cached[i].metadata {
            Some(meta) => {
                let title = truncate_title(meta.title.as_str(), title_width);
                listing_line(names[i].as_str(), title.as_str(), width)
            },
            None => {
                missing_count = missing_count + 1;
                listing_line(names[i].as_str(), "(title unavailable)", width)
            },
        };
        assert(line@ == cached_line(documents[i as int], width as nat, wide));
        lines.push(line);
        assert(lines.deep_view() =~= before.push(line@));
        i = i + 1;
    }
    assert(documents.take(i as int) =~= documents);
    let ghost listed_lines = lines.deep_view();
    if missing_count > 0 {
        let ghost before = lines.deep_view();
        let mut note = String::from_str("\n(");
        push_decimal(&mut note, missing_count as u64);
        note.append(" document");
        note.append(if missing_count == 1 {
            ""
        } else {
            "s"
        });
        note.append(" without title - re-cache with --fresh to fetch metadata)");
        assert(note@ == missing_note(missing_count as nat));
        lines.push(note);
        assert(lines.deep_view() =~= before.push(note@));
    }
    proof {
        let expected = cache_report_of(documents, wide);
        let shown = lines.deep_view();
        assert(expected.len() == shown.len());
        assert forall|k: int| 0 <= k < shown.len() implies shown[k] == expected[k] by {
            if 1 <= k <= cached.len() {
                let j = k - 1;
                assert(listed_lines[j + 1] == cached_line(documents[j], width as nat, wide));
            }
        }
        assert(shown =~= expected);
    }
    lines
}

} // verus!
