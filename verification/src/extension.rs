//! The image extensions and the test of a path against them.
//!
//! Extensions are compared without regard to case: `photo.PNG` is an image.

use vstd::prelude::*;
use vstd::utf8::{encode_utf8, encode_utf8_decode_utf8};

verus! {

/// The extensions that mark an image file, in lower case and without the dot.
pub open spec fn image_extensions() -> Seq<Seq<char>> {
    seq![
        "apng"@,
        "png"@,
        "avif"@,
        "jpg"@,
        "jpeg"@,
        "jfif"@,
        "pjpeg"@,
        "pjp"@,
        "svg"@,
        "webp"@,
        "bmp"@,
        "ico"@,
        "cur"@,
        "tif"@,
        "tiff"@,
    ]
}

/// Whether `ext` is, letter for letter, one of the image extensions.
pub open spec fn is_image_extension(ext: Seq<char>) -> bool {
    image_extensions().contains(ext)
}

/// The place of the last `.` in `name`, if it holds one.
pub open spec fn last_dot(name: Seq<char>) -> Option<int>
    decreases name.len(),
{
    if name.len() == 0 {
        None
    } else if name.last() == '.' {
        Some(name.len() - 1)
    } else {
        last_dot(name.drop_last())
    }
}

/// The extension of a file name: what follows its last `.`, absent only where
/// the name holds no `.`. So `.png` has the extension `png`, and `notes.` the
/// empty one.
pub open spec fn extension_of_name(name: Seq<char>) -> Option<Seq<char>> {
    match last_dot(name) {
        Some(dot) => Some(name.subrange(dot + 1, name.len() as int)),
        None => None,
    }
}

/// The last `.` of a name is a `.` with none behind it; a name for which none
/// is found holds none.
pub proof fn last_dot_is_last(name: Seq<char>)
    ensures
        match last_dot(name) {
            Some(dot) => 0 <= dot < name.len() && name[dot] == '.' && forall|i: int|
                dot < i < name.len() ==> name[i] != '.',
            None => forall|i: int| 0 <= i < name.len() ==> name[i] != '.',
        },
    decreases name.len(),
{
    if name.len() > 0 && name.last() != '.' {
        let rest = name.drop_last();
        last_dot_is_last(rest);
        assert forall|i: int| 0 <= i < rest.len() implies rest[i] == name[i] by {}
    }
}

/// Whether every character of `text` is ASCII.
pub open spec fn is_ascii_text(text: Seq<char>) -> bool {
    forall|i: int| 0 <= i < text.len() ==> (#[trigger] text[i]) as u32 <= 127
}

/// An ASCII character in lower case: `A` to `Z` become `a` to `z`, the others
/// stay.
pub open spec fn ascii_lower(c: char) -> char {
    if 65 <= c as u32 && c as u32 <= 90 {
        ((c as u32 + 32) as u8) as char
    } else {
        c
    }
}

/// A text with each character in lower case as `ascii_lower` gives it.
pub open spec fn ascii_lowered(text: Seq<char>) -> Seq<char> {
    text.map_values(|c: char| ascii_lower(c))
}

/// The final component of `path`, as `std::path::Path::file_name` finds it by
/// the path grammar of the platform the library is built for; `None` where the
/// path has no such component.
pub uninterp spec fn path_file_name(path: Seq<char>) -> Option<Seq<char>>;

/// The text that `str::to_lowercase` returns for `text`. For a text of ASCII
/// characters it is `ascii_lowered(text)`.
pub uninterp spec fn lowercase(text: Seq<char>) -> Seq<char>;

/// A text in lower case: letter by letter where it is ASCII, else as
/// `str::to_lowercase` gives it.
pub open spec fn lowered(text: Seq<char>) -> Seq<char> {
    if is_ascii_text(text) {
        ascii_lowered(text)
    } else {
        lowercase(text)
    }
}

/// The extension of a path: that of its file name, absent where it has none.
pub open spec fn path_extension(path: Seq<char>) -> Option<Seq<char>> {
    match path_file_name(path) {
        Some(name) => extension_of_name(name),
        None => None,
    }
}

/// Whether `path` names an image: it has an extension which, in lower case,
/// is one of the image extensions.
pub open spec fn is_image_path(path: Seq<char>) -> bool {
    match path_extension(path) {
        Some(ext) => is_image_extension(lowered(ext)),
        None => false,
    }
}

/// Calls `std::path::Path::file_name` on `path`. Trusted: the result is the
/// path's final component, which on one build depends on the text alone. The
/// path comes from a `str`, so the file name is always text.
#[verifier::external_body]
fn file_name_of_path(path: &str) -> (r: Option<String>)
    ensures
        r.deep_view() == path_file_name(path@),
{
    let name = std::path::Path::new(path).file_name()?;
    Some(name.to_str()?.to_string())
}

/// Calls `str::to_lowercase`. Trusted: the result is the lower-case form that
/// the standard library gives, which depends on the text alone. It is the
/// Unicode mapping, under which a text of ASCII characters keeps its length
/// and changes in `A` to `Z` only, each to its small letter.
#[verifier::external_body]
fn to_lowercase(text: &str) -> (r: String)
    ensures
        r@ == lowercase(text@),
        is_ascii_text(text@) ==> r@ == ascii_lowered(text@),
{
    text.to_lowercase()
}

/// Whether two texts are equal, decided on their bytes.
pub fn same_text(a: &str, b: &str) -> (r: bool)
    ensures
        r == (a@ == b@),
{
    let x = a.as_bytes();
    let y = b.as_bytes();
    proof {
        encode_utf8_decode_utf8(a@);
        encode_utf8_decode_utf8(b@);
    }
    if x.len() != y.len() {
        return false;
    }
    let mut i: usize = 0;
    while i < x.len()
        invariant
            i <= x.len(),
            x.len() == y.len(),
            x@ == encode_utf8(a@),
            y@ == encode_utf8(b@),
            forall|j: int| 0 <= j < i ==> x@[j] == y@[j],
        decreases x.len() - i,
    {
        if x[i] != y[i] {
            return false;
        }
        i += 1;
    }
    assert(x@ =~= y@);
    true
}

/// Whether `ext` is one of the image extensions, taken as it is written: the
/// caller lowers the case first.
pub fn is_allowed_extension(ext: &str) -> (r: bool)
    ensures
        r == is_image_extension(ext@),
{
    let allowed: [&str; 15] = [
        "apng",
        "png",
        "avif",
        "jpg",
        "jpeg",
        "jfif",
        "pjpeg",
        "pjp",
        "svg",
        "webp",
        "bmp",
        "ico",
        "cur",
        "tif",
        "tiff",
    ];
    assert(allowed@.map_values(|s: &str| s@) =~= image_extensions());
    let mut i: usize = 0;
    while i < 15
        invariant
            i <= 15,
            allowed@.map_values(|s: &str| s@) == image_extensions(),
            forall|j: int| 0 <= j < i ==> image_extensions()[j] != ext@,
        decreases 15 - i,
    {
        assert(allowed@.map_values(|s: &str| s@)[i as int] == allowed@[i as int]@);
        if same_text(ext, allowed[i]) {
            return true;
        }
        i += 1;
    }
    false
}

/// The extension of the file name `name`: what follows its last `.`, or
/// `None` where it holds no `.`.
pub fn extension_of_file_name(name: &str) -> (r: Option<String>)
    ensures
        r.deep_view() == extension_of_name(name@),
{
    let len: usize = name.unicode_len();
    let mut i: usize = len;
    while i > 0
        invariant
            i <= len,
            len == name@.len(),
            forall|j: int| i <= j < len ==> name@[j] != '.',
        decreases i,
    {
        if name.get_char(i - 1) == '.' {
            let ext = name.substring_char(i, len).to_owned();
            proof {
                last_dot_is_last(name@);
            }
            return Some(ext);
        }
        i -= 1;
    }
    proof {
        last_dot_is_last(name@);
    }
    None
}

/// Whether the file at `filepath` counts as an image: the extension of its
/// file name, in lower case, is one of the image extensions. A path without a
/// file name, or whose file name holds no `.`, is no image.
pub fn is_image(filepath: &str) -> (r: bool)
    ensures
        r == is_image_path(filepath@),
{
    match file_name_of_path(filepath) {
        Some(name) => match extension_of_file_name(name.as_str()) {
            Some(ext) => {
                let lowered = to_lowercase(ext.as_str());
                is_allowed_extension(lowered.as_str())
            },
            None => false,
        },
        None => false,
    }
}

} // verus!
