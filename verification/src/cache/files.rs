//! File operations as values, and what they do to a file system.

use vstd::prelude::*;
use crate::text::pattern::has_prefix;

verus! {

/// One operation on the file system, for the caller to carry out.
#[derive(Debug)]
pub enum FileAction {
    /// Create the directory and its parents, unless they exist.
    CreateDirAll { path: String },
    /// Write the file, replacing what it held.
    Write { path: String, content: String },
    /// Delete the file.
    RemoveFile { path: String },
    /// Delete the directory and all that is in it.
    RemoveDirAll { path: String },
}

/// What a [`FileAction`] holds, as mathematical values.
pub enum FileActionView {
    CreateDirAll { path: Seq<char> },
    Write { path: Seq<char>, content: Seq<char> },
    RemoveFile { path: Seq<char> },
    RemoveDirAll { path: Seq<char> },
}

impl View for FileAction {
    type V = FileActionView;

    open spec fn view(&self) -> FileActionView {
        match self {
            FileAction::CreateDirAll { path } => FileActionView::CreateDirAll { path: path@ },
            FileAction::Write { path, content } => FileActionView::Write {
                path: path@,
                content: content@,
            },
            FileAction::RemoveFile { path } => FileActionView::RemoveFile { path: path@ },
            FileAction::RemoveDirAll { path } => FileActionView::RemoveDirAll { path: path@ },
        }
    }
}

impl DeepView for FileAction {
    type V = FileActionView;

    open spec fn deep_view(&self) -> FileActionView {
        self@
    }
}

/// Whether the file at `path` lies in the directory `dir` or below it.
pub open spec fn is_under(path: Seq<char>, dir: Seq<char>) -> bool {
    has_prefix(path, dir + "/"@)
}

impl FileActionView {
    /// The files, by path, after the action has been carried out on `files`.
    pub open spec fn apply(self, files: Map<Seq<char>, Seq<char>>) -> Map<Seq<char>, Seq<char>> {
        match self {
            FileActionView::CreateDirAll { path } => files,
            FileActionView::Write { path, content } => files.insert(path, content),
            FileActionView::RemoveFile { path } => files.remove(path),
            FileActionView::RemoveDirAll { path } => Map::new(
                |p: Seq<char>| files.contains_key(p) && !is_under(p, path),
                |p: Seq<char>| files[p],
            ),
        }
    }
}

/// The files, by path, after the actions have been carried out in order.
pub open spec fn run(
    files: Map<Seq<char>, Seq<char>>,
    actions: Seq<FileActionView>,
) -> Map<Seq<char>, Seq<char>>
    decreases actions.len(),
{
    if actions.len() == 0 {
        files
    } else {
        actions.last().apply(run(files, actions.drop_last()))
    }
}

} // verus!
