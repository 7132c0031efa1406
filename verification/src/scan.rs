//! The scan of one directory for images.
//!
//! The caller looks at the file system and reports what it saw: whether the
//! path is a directory, and the entries of the directory that was read. The
//! functions here decide which directory that is, which entries are listed
//! and which error is reported.

use vstd::prelude::*;
use crate::extension::{is_image, is_image_path};

verus! {

/// What the metadata of a directory entry said of it.
#[derive(Debug, Clone, Copy, PartialEq, Eq, Structural)]
pub enum FileKind {
    /// A regular file.
    Regular,
    /// A directory, a link to something that is no file, a special file.
    Other,
    /// The metadata could not be read.
    Unreadable,
}

/// One entry of a directory, as the caller read it.
#[derive(Debug, Clone, PartialEq, Eq)]
pub struct Entry {
    /// The entry's full path, or `None` where it cannot be written as text.
    pub path: Option<String>,
    /// What kind of file the entry is.
    pub kind: FileKind,
}

/// An entry as contracts see it.
pub struct EntryView {
    pub path: Option<Seq<char>>,
    pub kind: FileKind,
}

impl DeepView for Entry {
    type V = EntryView;

    open spec fn deep_view(&self) -> EntryView {
        EntryView { path: self.path.deep_view(), kind: self.kind }
    }
}

/// Why a scan failed.
#[derive(Debug, Clone, PartialEq, Eq)]
pub enum ScanError {
    /// The path is no directory and has no parent.
    InvalidPath,
    /// The directory, whose path is carried, could not be read.
    DirectoryRead(String),
}

/// A scan error as contracts see it.
pub enum ScanErrorView {
    InvalidPath,
    DirectoryRead(Seq<char>),
}

impl DeepView for ScanError {
    type V = ScanErrorView;

    open spec fn deep_view(&self) -> ScanErrorView {
        match self {
            ScanError::InvalidPath => ScanErrorView::InvalidPath,
            ScanError::DirectoryRead(dir) => ScanErrorView::DirectoryRead(dir@),
        }
    }
}

/// The text of an error's message.
pub open spec fn message_text(error: ScanErrorView) -> Seq<char> {
    match error {
        ScanErrorView::InvalidPath => "Invalid file path"@,
        ScanErrorView::DirectoryRead(dir) => "Cannot read directory "@ + dir,
    }
}

impl ScanError {
    /// The message shown for this error. For a directory that could not be
    /// read it ends with the directory's path.
    pub fn message(&self) -> (r: String)
        ensures
            r@ == message_text(self.deep_view()),
    {
        match self {
            ScanError::InvalidPath => String::from_str("Invalid file path"),
            ScanError::DirectoryRead(dir) => {
                String::from_str("Cannot read directory ").concat(dir.as_str())
            },
        }
    }
}

/// What `std::path::Path::parent` returns for a path that is not empty: the
/// path without its final component, by the path grammar of the platform the
/// library is built for. It is `None` where the path ends in a root or prefix,
/// and may be the empty path.
pub uninterp spec fn path_parent(path: Seq<char>) -> Option<Seq<char>>;

/// The parent directory of a path. The empty path has none, and neither has
/// a path that is a single name: what is left of it without the name is the
/// empty path, which names no directory.
pub open spec fn parent_of(path: Seq<char>) -> Option<Seq<char>> {
    if path.len() == 0 {
        None
    } else {
        match path_parent(path) {
            Some(parent) => if parent.len() > 0 {
                Some(parent)
            } else {
                None
            },
            None => None,
        }
    }
}

/// The directory that is scanned for `path`: the path itself where it is a
/// directory, else its parent.
pub open spec fn target_of(path: Seq<char>, is_dir: bool) -> Option<Seq<char>> {
    if is_dir {
        Some(path)
    } else {
        parent_of(path)
    }
}

/// The path under which an entry is listed: an entry is listed if it is a
/// regular file whose path is text and names an image.
pub open spec fn listed_path(entry: EntryView) -> Option<Seq<char>> {
    match entry.path {
        Some(path) => if entry.kind == FileKind::Regular && is_image_path(path) {
            Some(path)
        } else {
            None
        },
        None => None,
    }
}

/// The paths of the entries that are listed, in the order of the entries.
pub open spec fn images_in(entries: Seq<EntryView>) -> Seq<Seq<char>> {
    entries.filter_map(|entry: EntryView| listed_path(entry))
}

/// The result of a scan for `path`, given what the caller saw: whether the
/// path is a directory, and the entries of the scanned directory, `None` where
/// it could not be read.
pub open spec fn scan_outcome(
    path: Seq<char>,
    is_dir: bool,
    listing: Option<Seq<EntryView>>,
) -> Result<Seq<Seq<char>>, ScanErrorView> {
    match target_of(path, is_dir) {
        None => Err(ScanErrorView::InvalidPath),
        Some(dir) => match listing {
            None => Err(ScanErrorView::DirectoryRead(dir)),
            Some(entries) => Ok(images_in(entries)),
        },
    }
}

/// A scan's result as contracts see it.
pub open spec fn outcome_view(outcome: Result<Vec<String>, ScanError>) -> Result<
    Seq<Seq<char>>,
    ScanErrorView,
> {
    match outcome {
        Ok(paths) => Ok(paths.deep_view()),
        Err(error) => Err(error.deep_view()),
    }
}

/// Calls `std::path::Path::parent` on `path`. Trusted: the empty path has no
/// parent, as the standard library documents; for any other path the result
/// depends on the text alone. The path comes from a `str`, so its parent is
/// always text.
#[verifier::external_body]
fn parent_of_path(path: &str) -> (r: Option<String>)
    ensures
        path@.len() == 0 ==> r is None,
        path@.len() > 0 ==> r.deep_view() == path_parent(path@),
{
    let parent = std::path::Path::new(path).parent()?;
    Some(parent.to_str()?.to_string())
}

/// The directory to scan for `filepath`, given what is left of the path
/// without its final component: the path itself where it is a directory, else
/// that parent. A path that is no directory and has no parent, or the empty
/// one, is invalid.
pub fn directory_or_parent(filepath: &str, is_dir: bool, parent: Option<String>) -> (r: Result<
    String,
    ScanError,
>)
    ensures
        is_dir ==> r is Ok && r->Ok_0@ == filepath@,
        !is_dir && parent is Some && parent->Some_0@.len() > 0 ==> r == Ok::<String, ScanError>(
            parent->Some_0,
        ),
        !is_dir && (parent is None || parent->Some_0@.len() == 0) ==> r == Err::<
            String,
            ScanError,
        >(ScanError::InvalidPath),
{
    if is_dir {
        Ok(filepath.to_owned())
    } else {
        match parent {
            Some(dir) => {
                if dir.as_str().is_empty() {
                    Err(ScanError::InvalidPath)
                } else {
                    Ok(dir)
                }
            },
            None => Err(ScanError::InvalidPath),
        }
    }
}

/// The directory to scan for `filepath`: the path itself where the caller
/// found it to be a directory, else its parent. A path that is no directory
/// and has no parent is invalid: the empty path, a root, a single name.
pub fn target_directory(filepath: &str, is_dir: bool) -> (r: Result<String, ScanError>)
    ensures
        match r {
            Ok(dir) => target_of(filepath@, is_dir) == Some(dir@),
            Err(error) => error == ScanError::InvalidPath && target_of(filepath@, is_dir)
                is None,
        },
{
    let parent = if is_dir {
        None
    } else {
        parent_of_path(filepath)
    };
    directory_or_parent(filepath, is_dir, parent)
}

/// The images among `entries`: the paths of the regular files whose path is
/// text and has an image extension, in the order of the entries. Entries whose
/// metadata could not be read are passed over.
pub fn images_of_listing(entries: &Vec<Entry>) -> (r: Vec<String>)
    ensures
        r.deep_view() == images_in(entries.deep_view()),
{
    let ghost all = entries.deep_view();
    let ghost pick = |entry: EntryView| listed_path(entry);
    let mut found: Vec<String> = Vec::new();
    let mut i: usize = 0;
    assert(all.take(0).filter_map(pick) =~= Seq::empty());
    while i < entries.len()
        invariant
            i <= entries.len(),
            all == entries.deep_view(),
            pick == |entry: EntryView| listed_path(entry),
            found.deep_view() == all.take(i as int).filter_map(pick),
        decreases entries.len() - i,
    {
        let entry = &entries[i];
        let ghost before = found.deep_view();
        proof {
            all.lemma_filter_map_take_succ(pick, i as int);
            assert(all[i as int] == entry.deep_view());
        }
        match &entry.path {
            Some(path) => {
                if matches!(entry.kind, FileKind::Regular) && is_image(path.as_str()) {
                    found.push(path.clone());
                    assert(found.deep_view() =~= before + seq![path@]);
                }
            },
            None => {},
        }
        assert(found.deep_view() =~= all.take(i as int + 1).filter_map(pick));
        i += 1;
    }
    assert(all.take(i as int) =~= all);
    found
}

/// Lists the images beside `filepath`, from what the caller saw on the file
/// system: `is_dir` says whether `filepath` is a directory, `listing` holds
/// the entries of the directory that `target_directory` gives for the two,
/// or `None` where that directory could not be read.
///
/// A path that is no directory and has no parent is invalid, whatever the
/// listing. A directory that could not be read is reported with its path.
/// Otherwise the images of the listing are returned, in its order.
pub fn list_files_in_same_directory(
    filepath: &str,
    is_dir: bool,
    listing: Option<&Vec<Entry>>,
) -> (r: Result<Vec<String>, ScanError>)
    ensures
        outcome_view(r) == scan_outcome(
            filepath@,
            is_dir,
            match listing {
                Some(entries) => Some(entries.deep_view()),
                None => None,
            },
        ),
{
    match target_directory(filepath, is_dir) {
        Err(error) => Err(error),
        Ok(dir) => match listing {
            None => Err(ScanError::DirectoryRead(dir)),
            Some(entries) => Ok(images_of_listing(entries)),
        },
    }
}

} // verus!
