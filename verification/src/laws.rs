//! What holds of every scan, stated over the models that the contracts use.

use vstd::prelude::*;
use crate::extension::{
    ascii_lowered, extension_of_name, image_extensions, is_ascii_text, is_image_extension,
    is_image_path, last_dot, last_dot_is_last, lowered, path_extension, path_file_name,
};
use crate::scan::{
    images_in, listed_path, outcome_view, parent_of, path_parent, scan_outcome, target_of,
    EntryView,
    FileKind, ScanError, ScanErrorView,
};

verus! {

/// Whether every entry is a regular file whose path is text and names an
/// image.
pub open spec fn all_images(entries: Seq<EntryView>) -> bool {
    forall|i: int|
        0 <= i < entries.len() ==> (#[trigger] entries[i]).kind == FileKind::Regular
            && entries[i].path is Some && is_image_path(entries[i].path.unwrap())
}

/// Of a directory that holds nothing but image files, every entry is listed:
/// the result is the paths of the entries, one for one and in their order.
pub proof fn only_images_all_listed(entries: Seq<EntryView>)
    requires
        all_images(entries),
    ensures
        images_in(entries) == entries.map_values(|entry: EntryView| entry.path.unwrap()),
    decreases entries.len(),
{
    let pick = |entry: EntryView| listed_path(entry);
    let path = |entry: EntryView| entry.path.unwrap();
    if entries.len() > 0 {
        let rest = entries.drop_last();
        assert forall|i: int| 0 <= i < rest.len() implies (#[trigger] rest[i]).kind
            == FileKind::Regular && rest[i].path is Some && is_image_path(
            rest[i].path.unwrap(),
        ) by {
            assert(rest[i] == entries[i]);
        }
        only_images_all_listed(rest);
        assert(listed_path(entries.last()) == Some(entries.last().path.unwrap()));
        assert(entries.filter_map(pick) == rest.filter_map(pick) + seq![
            entries.last().path.unwrap(),
        ]);
        assert(entries.map_values(path) =~= rest.map_values(path) + seq![
            entries.last().path.unwrap(),
        ]);
    } else {
        assert(entries.filter_map(pick) =~= entries.map_values(path));
    }
}

/// Two scans of one path that saw the same file system give the same result.
pub proof fn repeated_scan_agrees(
    first: Result<Vec<String>, ScanError>,
    second: Result<Vec<String>, ScanError>,
    path: Seq<char>,
    is_dir: bool,
    listing: Option<Seq<EntryView>>,
)
    requires
        outcome_view(first) == scan_outcome(path, is_dir, listing),
        outcome_view(second) == scan_outcome(path, is_dir, listing),
    ensures
        outcome_view(first) == outcome_view(second),
{
}

/// A scan for a file gives what a scan for its parent directory gives: the
/// file's parent is resolved first, and nothing else of the file is used.
pub proof fn file_scans_as_its_directory(
    file: Seq<char>,
    dir: Seq<char>,
    listing: Option<Seq<EntryView>>,
)
    requires
        parent_of(file) == Some(dir),
    ensures
        scan_outcome(file, false, listing) == scan_outcome(dir, true, listing),
{
}

/// An extension holds no `.`, and the name ends with a `.` and the extension.
pub proof fn extension_ends_the_name(name: Seq<char>)
    requires
        extension_of_name(name) is Some,
    ensures
        !extension_of_name(name).unwrap().contains('.'),
        extension_of_name(name).unwrap().len() < name.len(),
        name.subrange(
            name.len() - extension_of_name(name).unwrap().len() - 1,
            name.len() as int,
        ) == seq!['.'] + extension_of_name(name).unwrap(),
{
    last_dot_is_last(name);
    let dot: int = last_dot(name).unwrap();
    let ext = extension_of_name(name).unwrap();
    assert forall|i: int| 0 <= i < ext.len() implies ext[i] != '.' by {
        assert(ext[i] == name[dot + 1 + i]);
    }
    assert(name.subrange(dot, name.len() as int) =~= seq!['.'] + ext);
}

/// A name that holds a `.` has an extension, also where its only `.` is its
/// first character.
pub proof fn name_with_dot_has_extension(name: Seq<char>)
    requires
        name.contains('.'),
    ensures
        extension_of_name(name) is Some,
{
    last_dot_is_last(name);
}

/// A file whose name holds no `.` has no extension, and so is no image.
pub proof fn name_without_dot_is_no_image(path: Seq<char>)
    requires
        path_file_name(path) is Some,
        !path_file_name(path).unwrap().contains('.'),
    ensures
        path_extension(path) is None,
        !is_image_path(path),
{
    let name = path_file_name(path).unwrap();
    last_dot_is_last(name);
    if last_dot(name) is Some {
        assert(name.contains(name[last_dot(name).unwrap()]));
    }
}

/// Case is not regarded: two paths whose extensions agree once in lower case
/// are both images or both none.
pub proof fn case_is_not_regarded(first: Seq<char>, second: Seq<char>)
    requires
        path_extension(first) is Some,
        path_extension(second) is Some,
        lowered(path_extension(first).unwrap()) == lowered(path_extension(second).unwrap()),
    ensures
        is_image_path(first) == is_image_path(second),
{
}

/// A path whose extension is ASCII and, with its capital letters made small,
/// is one of the image extensions, is an image.
pub proof fn ascii_case_is_not_regarded(path: Seq<char>, ext: Seq<char>)
    requires
        path_extension(path) == Some(ext),
        is_ascii_text(ext),
        is_image_extension(ascii_lowered(ext)),
    ensures
        is_image_path(path),
{
}

/// The extension of a name that ends with a `.` and a text without a `.` is
/// that text.
pub proof fn extension_of_joined_name(stem: Seq<char>, ext: Seq<char>)
    requires
        !ext.contains('.'),
    ensures
        extension_of_name(stem + seq!['.'] + ext) == Some(ext),
{
    let name = stem + seq!['.'] + ext;
    last_dot_is_last(name);
    assert(name[stem.len() as int] == '.');
    match last_dot(name) {
        Some(dot) => {
            if dot > stem.len() {
                assert(ext.contains(ext[dot - stem.len() - 1]));
            }
            assert(name.subrange(dot + 1, name.len() as int) =~= ext);
        },
        None => {},
    }
}

/// A file whose name ends in `.PNG` is an image.
pub proof fn capital_png_is_an_image(path: Seq<char>, stem: Seq<char>)
    requires
        path_file_name(path) == Some(stem + ".PNG"@),
    ensures
        is_image_path(path),
{
    reveal_strlit(".PNG");
    reveal_strlit("PNG");
    reveal_strlit("png");
    assert("PNG"@ =~= seq!['P', 'N', 'G']);
    assert(".PNG"@ =~= seq!['.'] + "PNG"@);
    assert(stem + ".PNG"@ =~= stem + seq!['.'] + "PNG"@);
    extension_of_joined_name(stem, "PNG"@);
    assert(ascii_lowered("PNG"@) =~= "png"@);
    assert(image_extensions()[1] == "png"@);
}

/// A file whose name ends in `.jpg` is an image.
pub proof fn jpg_is_an_image(path: Seq<char>, stem: Seq<char>)
    requires
        path_file_name(path) == Some(stem + ".jpg"@),
    ensures
        is_image_path(path),
{
    reveal_strlit(".jpg");
    reveal_strlit("jpg");
    assert("jpg"@ =~= seq!['j', 'p', 'g']);
    assert(".jpg"@ =~= seq!['.'] + "jpg"@);
    assert(stem + ".jpg"@ =~= stem + seq!['.'] + "jpg"@);
    extension_of_joined_name(stem, "jpg"@);
    assert(ascii_lowered("jpg"@) =~= "jpg"@);
    assert(image_extensions()[3] == "jpg"@);
}

/// A file whose name ends in `.txt` is no image.
pub proof fn txt_is_no_image(path: Seq<char>, stem: Seq<char>)
    requires
        path_file_name(path) == Some(stem + ".txt"@),
    ensures
        !is_image_path(path),
{
    reveal_strlit(".txt");
    reveal_strlit("txt");
    assert("txt"@ =~= seq!['t', 'x', 't']);
    assert(".txt"@ =~= seq!['.'] + "txt"@);
    assert(stem + ".txt"@ =~= stem + seq!['.'] + "txt"@);
    extension_of_joined_name(stem, "txt"@);
    assert(ascii_lowered("txt"@) =~= "txt"@);
    reveal_strlit("apng");
    reveal_strlit("png");
    reveal_strlit("avif");
    reveal_strlit("jpg");
    reveal_strlit("jpeg");
    reveal_strlit("jfif");
    reveal_strlit("pjpeg");
    reveal_strlit("pjp");
    reveal_strlit("svg");
    reveal_strlit("webp");
    reveal_strlit("bmp");
    reveal_strlit("ico");
    reveal_strlit("cur");
    reveal_strlit("tif");
    reveal_strlit("tiff");
    assert("txt"@.len() == 3 && "txt"@[1] == 'x');
    assert("apng"@.len() == 4 && "avif"@.len() == 4 && "jpeg"@.len() == 4);
    assert("jfif"@.len() == 4 && "webp"@.len() == 4 && "tiff"@.len() == 4);
    assert("pjpeg"@.len() == 5);
    assert("png"@[1] == 'n' && "jpg"@[1] == 'p' && "pjp"@[1] == 'j' && "svg"@[1] == 'v');
    assert("bmp"@[1] == 'm' && "ico"@[1] == 'c' && "cur"@[1] == 'u' && "tif"@[1] == 'i');
    assert(!image_extensions().contains("txt"@));
}

/// An entry added at the end of a listing adds its path at the end of what is
/// listed, where it is a regular file that names an image, and nothing else.
pub proof fn added_entry_is_listed_last(entries: Seq<EntryView>, entry: EntryView)
    ensures
        images_in(entries.push(entry)) == match listed_path(entry) {
            Some(path) => images_in(entries).push(path),
            None => images_in(entries),
        },
{
    let pick = |entry: EntryView| listed_path(entry);
    assert(entries.push(entry).drop_last() =~= entries);
    match listed_path(entry) {
        Some(path) => {
            assert(entries.push(entry).filter_map(pick) =~= entries.filter_map(pick).push(path));
        },
        None => {
            assert(entries.push(entry).filter_map(pick) == entries.filter_map(pick));
        },
    }
}

/// A directory that holds the files `a.jpg`, `b.txt` and `c.PNG` and a
/// subdirectory: the first and the third are listed, in that order and as
/// they are written, and nothing else.
pub proof fn pictures_and_a_text_file(
    dir: Seq<char>,
    a: Seq<char>,
    b: Seq<char>,
    c: Seq<char>,
    sub: Option<Seq<char>>,
)
    requires
        path_file_name(a) == Some("a.jpg"@),
        path_file_name(b) == Some("b.txt"@),
        path_file_name(c) == Some("c.PNG"@),
    ensures
        images_in(
            seq![
                EntryView { path: Some(a), kind: FileKind::Regular },
                EntryView { path: Some(b), kind: FileKind::Regular },
                EntryView { path: Some(c), kind: FileKind::Regular },
                EntryView { path: sub, kind: FileKind::Other },
            ],
        ) == seq![a, c],
        scan_outcome(
            dir,
            true,
            Some(
                seq![
                    EntryView { path: Some(a), kind: FileKind::Regular },
                    EntryView { path: Some(b), kind: FileKind::Regular },
                    EntryView { path: Some(c), kind: FileKind::Regular },
                    EntryView { path: sub, kind: FileKind::Other },
                ],
            ),
        ) == Ok::<Seq<Seq<char>>, ScanErrorView>(seq![a, c]),
{
    reveal_strlit("a.jpg");
    reveal_strlit(".jpg");
    reveal_strlit("b.txt");
    reveal_strlit(".txt");
    reveal_strlit("c.PNG");
    reveal_strlit(".PNG");
    assert("a.jpg"@ =~= seq!['a'] + ".jpg"@);
    assert("b.txt"@ =~= seq!['b'] + ".txt"@);
    assert("c.PNG"@ =~= seq!['c'] + ".PNG"@);
    jpg_is_an_image(a, seq!['a']);
    txt_is_no_image(b, seq!['b']);
    capital_png_is_an_image(c, seq!['c']);
    let ea = EntryView { path: Some(a), kind: FileKind::Regular };
    let eb = EntryView { path: Some(b), kind: FileKind::Regular };
    let ec = EntryView { path: Some(c), kind: FileKind::Regular };
    let es = EntryView { path: sub, kind: FileKind::Other };
    let none = Seq::<EntryView>::empty();
    assert(images_in(none) =~= Seq::<Seq<char>>::empty());
    added_entry_is_listed_last(none, ea);
    added_entry_is_listed_last(none.push(ea), eb);
    added_entry_is_listed_last(none.push(ea).push(eb), ec);
    added_entry_is_listed_last(none.push(ea).push(eb).push(ec), es);
    assert(seq![ea, eb, ec, es] =~= none.push(ea).push(eb).push(ec).push(es));
    assert(Seq::<Seq<char>>::empty().push(a).push(c) =~= seq![a, c]);
}

/// A path without an extension names no image, and no entry is listed under
/// it.
pub proof fn no_extension_no_image(path: Seq<char>, entries: Seq<EntryView>)
    requires
        path_extension(path) is None,
    ensures
        !is_image_path(path),
        !images_in(entries).contains(path),
{
    if images_in(entries).contains(path) {
        listed_is_regular_image(entries, path);
    }
}

/// Whatever is listed is the path of an entry that is a regular file and
/// names an image. So a directory among the entries is never listed for
/// itself, whatever its name ends in.
pub proof fn listed_is_regular_image(entries: Seq<EntryView>, path: Seq<char>)
    requires
        images_in(entries).contains(path),
    ensures
        is_image_path(path),
        exists|i: int|
            0 <= i < entries.len() && (#[trigger] entries[i]).kind == FileKind::Regular
                && entries[i].path == Some(path),
{
    let pick = |entry: EntryView| listed_path(entry);
    entries.lemma_filter_map_contains(pick, path);
    let entry = choose|entry: EntryView| #[trigger]
        entries.contains(entry) && pick(entry) == Some(path);
    let i: int = choose|i: int| 0 <= i < entries.len() && entries[i] == entry;
    assert(entries[i].kind == FileKind::Regular && entries[i].path == Some(path));
}

/// An entry that is a regular file, whose path is text and names an image, is
/// listed.
pub proof fn regular_image_is_listed(entries: Seq<EntryView>, i: int)
    requires
        0 <= i < entries.len(),
        entries[i].kind == FileKind::Regular,
        entries[i].path is Some,
        is_image_path(entries[i].path.unwrap()),
    ensures
        images_in(entries).contains(entries[i].path.unwrap()),
    decreases entries.len(),
{
    let pick = |entry: EntryView| listed_path(entry);
    let path = entries[i].path.unwrap();
    let rest = entries.drop_last();
    let tail: Seq<Seq<char>> = match pick(entries.last()) {
        Some(p) => seq![p],
        None => Seq::empty(),
    };
    assert(entries.filter_map(pick) == rest.filter_map(pick) + tail);
    if i == entries.len() - 1 {
        assert(tail[0] == path);
        assert((rest.filter_map(pick) + tail)[rest.filter_map(pick).len() as int] == path);
    } else {
        assert(rest[i] == entries[i]);
        regular_image_is_listed(rest, i);
        let k: int = choose|k: int|
            0 <= k < rest.filter_map(pick).len() && rest.filter_map(pick)[k] == path;
        assert((rest.filter_map(pick) + tail)[k] == path);
    }
}

/// An entry that is no regular file, or whose metadata could not be read, adds
/// nothing to what is listed.
pub proof fn other_kinds_add_nothing(entries: Seq<EntryView>, entry: EntryView)
    requires
        entry.kind != FileKind::Regular,
    ensures
        images_in(entries.push(entry)) == images_in(entries),
{
    let pick = |entry: EntryView| listed_path(entry);
    assert(entries.push(entry).drop_last() =~= entries);
    assert(entries.push(entry).filter_map(pick) == entries.filter_map(pick));
}

/// Where the directory could not be read the scan fails: with the directory's
/// path where the path has one to scan, as an invalid path where it has not.
pub proof fn unread_directory_is_an_error(path: Seq<char>, is_dir: bool)
    ensures
        match target_of(path, is_dir) {
            Some(dir) => scan_outcome(path, is_dir, None) == Err::<
                Seq<Seq<char>>,
                ScanErrorView,
            >(ScanErrorView::DirectoryRead(dir)),
            None => scan_outcome(path, is_dir, None) == Err::<Seq<Seq<char>>, ScanErrorView>(
                ScanErrorView::InvalidPath,
            ),
        },
{
}

/// A path that is a single name, so that nothing is left of it without the
/// name, is an invalid path where it is no directory, whatever a listing
/// holds.
pub proof fn single_name_is_invalid(path: Seq<char>, listing: Option<Seq<EntryView>>)
    requires
        path_parent(path) == Some(Seq::<char>::empty()),
    ensures
        scan_outcome(path, false, listing) == Err::<Seq<Seq<char>>, ScanErrorView>(
            ScanErrorView::InvalidPath,
        ),
{
}

/// The empty path, which names no directory, is an invalid path, whatever a
/// listing holds.
pub proof fn empty_path_is_invalid(listing: Option<Seq<EntryView>>)
    ensures
        scan_outcome(Seq::empty(), false, listing) == Err::<Seq<Seq<char>>, ScanErrorView>(
            ScanErrorView::InvalidPath,
        ),
{
}

} // verus!
