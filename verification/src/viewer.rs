//! Choosing the program that shows a document.

use vstd::prelude::*;
use vstd::string::StringExecFns;
use crate::text::pattern::{contains, contains_str, ends_with, has_suffix};

verus! {

/// How a viewer is given the text.
#[derive(Debug, Clone, Copy, PartialEq, Eq, Structural)]
pub enum ViewerKind {
    /// The program reads the text from its standard input.
    Pager,
    /// The program is given the name of a file that holds the text.
    Editor,
}

/// Whether a program of this name is run as a pager: it is `less`, `more`
/// or `most`, has `less` or `more` in its name, or its name ends in `pager`.
pub open spec fn is_pager_spec(viewer: Seq<char>) -> bool {
    ||| viewer == "less"@
    ||| viewer == "more"@
    ||| viewer == "most"@
    ||| contains(viewer, "less"@)
    ||| contains(viewer, "more"@)
    ||| has_suffix(viewer, "pager"@)
}

/// The program to show a document with: the one asked for; else the
/// editor; else the pager; else none.
pub open spec fn choose_viewer_spec(
    open_with: Option<Seq<char>>,
    editor: Option<Seq<char>>,
    pager: Option<Seq<char>>,
) -> Option<Seq<char>> {
    match open_with {
        Some(program) => Some(program),
        None => match editor {
            Some(editor) => Some(editor),
            None => pager,
        },
    }
}

/// Whether two texts are the same.
fn same_text(a: &str, b: &str) -> (r: bool)
    ensures
        r == (a@ == b@),
{
    String::from_str(a) == String::from_str(b)
}

/// Detect if this is a pager-like program
pub fn is_pager(viewer: &str) -> (r: bool)
    ensures
        r == is_pager_spec(viewer@),
{
    same_text(viewer, "less") || same_text(viewer, "more") || same_text(viewer, "most")
        || contains_str(viewer, "less") || contains_str(viewer, "more") || ends_with(
        viewer,
        "pager",
    )
}

/// How the program `viewer` is given the text.
pub fn viewer_kind(viewer: &str) -> (r: ViewerKind)
    ensures
        r == if is_pager_spec(viewer@) {
            ViewerKind::Pager
        } else {
            ViewerKind::Editor
        },
{
    if is_pager(viewer) {
        ViewerKind::Pager
    } else {
        ViewerKind::Editor
    }
}

/// Determine the viewer to use, given the program that was asked for and
/// what the environment names as editor and as pager.
pub fn choose_viewer(open_with: Option<&str>, editor: Option<String>, pager: Option<String>) -> (r:
    Option<String>)
    ensures
        r.deep_view() == choose_viewer_spec(
            open_with.deep_view(),
            editor.deep_view(),
            pager.deep_view(),
        ),
{
    match open_with {
        Some(program) => Some(String::from_str(program)),
        None => {
            // Default: EDITOR -> PAGER -> don't open
            if let Some(editor) = editor {
                Some(editor)
            } else {
                pager
            }
        },
    }
}

} // verus!
