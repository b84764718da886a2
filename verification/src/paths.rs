//! The parts of a file path that decide whether it is opened and where the
//! lengthened GIF is offered to be saved.
use vstd::prelude::*;

verus! {

/// Where `c` occurs last in `s`, or -1 when it does not occur.
pub open spec fn last_index_of(s: Seq<char>, c: char) -> int
    decreases s.len(),
{
    if s.len() == 0 {
        -1
    } else if s.last() == c {
        s.len() - 1
    } else {
        last_index_of(s.drop_last(), c)
    }
}

/// What follows the last `/` of `path`, or all of it when it has none.
pub open spec fn final_segment(path: Seq<char>) -> Seq<char> {
    path.subrange(last_index_of(path, '/') + 1, path.len() as int)
}

/// `c` does not occur in `s`.
pub open spec fn lacks(s: Seq<char>, c: char) -> bool {
    forall|i: int| 0 <= i < s.len() ==> #[trigger] s[i] != c
}

/// A path that every platform splits the same way: `/` is its only
/// separator (no `\`, no `:` of a drive or stream, no leading `//` of a
/// network share), and it ends in a file name, not in a separator, `.` or
/// `..`.
pub open spec fn plain_path(path: Seq<char>) -> bool {
    let name = final_segment(path);
    &&& lacks(path, '\\')
    &&& lacks(path, ':')
    &&& !(path.len() >= 2 && path[0] == '/' && path[1] == '/')
    &&& name.len() > 0
    &&& name != "."@
    &&& name != ".."@
}

/// A plain path in which no separator is doubled and no `.` stands between
/// two separators, so that its folder is written out as it is.
pub open spec fn simple_path(path: Seq<char>) -> bool {
    &&& plain_path(path)
    &&& forall|i: int| 0 <= i < path.len() - 1 ==> !(#[trigger] path[i] == '/' && path[i + 1] == '/')
    &&& forall|i: int| 0 <= i < path.len() - 2 ==> !(#[trigger] path[i] == '/' && path[i + 1] == '.' && path[i + 2] == '/')
}

/// The extension of a plain path: what follows the last `.` of its file
/// name, unless that `.` begins the name.
pub open spec fn plain_extension(path: Seq<char>) -> Option<Seq<char>> {
    let name = final_segment(path);
    let k = last_index_of(name, '.');
    if k > 0 {
        Some(name.subrange(k + 1, name.len() as int))
    } else {
        None
    }
}

/// The stem of a plain path: its file name up to the last `.`, unless that
/// `.` begins the name; the whole name otherwise.
pub open spec fn plain_stem(path: Seq<char>) -> Seq<char> {
    let name = final_segment(path);
    let k = last_index_of(name, '.');
    if k > 0 {
        name.subrange(0, k)
    } else {
        name
    }
}

/// The folder of a simple path: what precedes its last `/`, the root when
/// that `/` begins the path, and the empty path when there is no `/`.
pub open spec fn plain_folder(path: Seq<char>) -> Seq<char> {
    let j = last_index_of(path, '/');
    if j < 0 {
        Seq::empty()
    } else if j == 0 {
        "/"@
    } else {
        path.subrange(0, j)
    }
}

/// `part` stands somewhere in `text`, in one piece.
pub open spec fn is_part_of(part: Seq<char>, text: Seq<char>) -> bool {
    exists|i: int| 0 <= i && i + part.len() <= text.len() && #[trigger] text.subrange(i, i + part.len()) == part
}

/// `std::path::Path::extension` of `path`, as text. The method hands out a
/// sub-slice of its input, the text right after a `.`; for a plain path its
/// documentation fixes it: the part of the file name after its last `.`,
/// none when the name has no `.` but at its start. How other paths split
/// depends on the platform and is not claimed.
#[verifier::external_body]
fn path_extension(path: &str) -> (r: Option<String>)
    ensures
        r matches Some(e) ==> exists|i: int| #[trigger] dot_followed_by(path@, i, e@),
        plain_path(path@) ==> text_view(r) == plain_extension(path@),
{
    std::path::Path::new(path).extension().and_then(|e| e.to_str()).map(|e| e.to_string())
}

/// `std::path::Path::file_stem` of `path`, as text. The method hands out a
/// sub-slice of its input; for a plain path its documentation fixes it: the
/// file name up to its last `.`, or all of it when the name has no `.` but
/// at its start. How other paths split depends on the platform and is not
/// claimed.
#[verifier::external_body]
fn path_file_stem(path: &str) -> (r: Option<String>)
    ensures
        r matches Some(s) ==> is_part_of(s@, path@),
        plain_path(path@) ==> text_view(r) == Some(plain_stem(path@)),
{
    std::path::Path::new(path).file_stem().and_then(|e| e.to_str()).map(|e| e.to_string())
}

/// `std::path::Path::parent` of `path`, as text: when there is one, it is a
/// leading part of `path` (the method hands out a sub-slice of its input). A
/// plain path ends in a file name, so it has one; for a simple path it is
/// what precedes the last `/` (the root, or the empty path, where nothing
/// or no `/` does). How other paths split depends on the platform and is
/// not claimed.
#[verifier::external_body]
fn path_parent(path: &str) -> (r: Option<String>)
    ensures
        r matches Some(p) ==> p@.len() <= path@.len() && p@ == path@.take(p@.len() as int),
        plain_path(path@) ==> r is Some,
        simple_path(path@) ==> text_view(r) == Some(plain_folder(path@)),
{
    std::path::Path::new(path).parent().and_then(|e| e.to_str()).map(|e| e.to_string())
}

/// `text` has a `.` at `i`, right followed by `word`.
pub open spec fn dot_followed_by(text: Seq<char>, i: int, word: Seq<char>) -> bool {
    &&& 0 <= i
    &&& i + 1 + word.len() <= text.len()
    &&& text[i] == '.'
    &&& text.subrange(i + 1, i + 1 + word.len()) == word
}

/// `c` with ASCII upper-case letters made lower-case.
pub open spec fn ascii_lower(c: char) -> char {
    if 'A' <= c <= 'Z' {
        ((c as u32) + 32) as char
    } else {
        c
    }
}

/// `ext` is `gif` in any mix of ASCII cases, as `eq_ignore_ascii_case`
/// compares.
pub open spec fn is_gif_word(ext: Seq<char>) -> bool {
    &&& ext.len() == 3
    &&& ascii_lower(ext[0]) == 'g'
    &&& ascii_lower(ext[1]) == 'i'
    &&& ascii_lower(ext[2]) == 'f'
}

/// Whether `c` is the lower-case ASCII letter `lower` or its capital `upper`.
fn is_letter(c: char, lower: char, upper: char) -> (r: bool)
    requires
        'a' <= lower <= 'z',
        upper as u32 + 32 == lower as u32,
    ensures
        r == (ascii_lower(c) == lower),
{
    c == lower || c == upper
}

/// Whether a file extension names a GIF: `gif`, ignoring ASCII case.
pub fn is_gif_extension(ext: Option<&str>) -> (r: bool)
    ensures
        r == (ext matches Some(e) && is_gif_word(e@)),
{
    match ext {
        Some(e) => {
            if e.unicode_len() != 3 {
                return false;
            }
            is_letter(e.get_char(0), 'g', 'G') && is_letter(e.get_char(1), 'i', 'I')
                && is_letter(e.get_char(2), 'f', 'F')
        },
        None => false,
    }
}

/// A plain path whose extension is `gif`, ignoring ASCII case.
pub open spec fn plain_gif_path(path: Seq<char>) -> bool {
    plain_extension(path) matches Some(e) && is_gif_word(e)
}

/// Whether the file at `path` is taken for a GIF: its extension, as the
/// platform splits paths, is `gif` ignoring ASCII case. So a path taken for
/// a GIF holds a `.` followed by such a `gif`, and a plain path is taken for
/// one exactly when its own extension is such a `gif`.
pub fn is_gif_path(path: &str) -> (r: bool)
    ensures
        r ==> exists|i: int, word: Seq<char>| #[trigger] dot_followed_by(path@, i, word) && is_gif_word(word),
        plain_path(path@) ==> (r == plain_gif_path(path@)),
{
    match path_extension(path) {
        Some(e) => is_gif_extension(Some(e.as_str())),
        None => is_gif_extension(None),
    }
}

/// Where and under which name the lengthened GIF is offered to be saved.
#[derive(Debug)]
pub struct SaveTarget {
    /// The folder of the original file; `None` when it has none, in which
    /// case the temporary folder is offered.
    pub directory: Option<String>,
    /// The suggested file name.
    pub file_name: String,
}

/// The text of an optional string.
pub open spec fn text_view(s: Option<String>) -> Option<Seq<char>> {
    match s {
        Some(t) => Some(t@),
        None => None,
    }
}

/// The suggested name of the lengthened GIF for a file whose stem is `stem`.
pub open spec fn save_name_text(stem: Option<Seq<char>>) -> Seq<char> {
    match stem {
        Some(s) => s + "-unfucked.gif"@,
        None => "gif"@ + "-unfucked.gif"@,
    }
}

/// The save target for a file whose folder is `directory` and stem is
/// `stem`: `<stem>-unfucked.gif`, or `gif-unfucked.gif` without a stem.
pub fn save_target_from(directory: Option<String>, stem: Option<String>) -> (t: SaveTarget)
    ensures
        t.directory == directory,
        t.file_name@ == save_name_text(text_view(stem)),
{
    let mut file_name = match stem {
        Some(s) => s,
        None => String::from_str("gif"),
    };
    file_name.append("-unfucked.gif");
    SaveTarget { directory, file_name }
}

/// `t` is the save target for the file at `path`: its folder is a leading
/// part of `path` and its name is `<stem>-unfucked.gif` for a stem that
/// stands in `path` (or `gif`). For a plain path the stem is that of its
/// file name and the folder is there; for a simple path the folder is what
/// precedes its last `/`.
pub open spec fn fits_save_target(path: Seq<char>, t: SaveTarget) -> bool {
    &&& t.directory matches Some(d) ==> d@ == path.take(d@.len() as int)
    &&& exists|stem: Option<Seq<char>>| #[trigger] save_name_text(stem) == t.file_name@
        && (stem matches Some(s) ==> is_part_of(s, path))
    &&& plain_path(path) ==> t.file_name@ == plain_stem(path) + "-unfucked.gif"@ && t.directory is Some
    &&& simple_path(path) ==> text_view(t.directory) == Some(plain_folder(path))
}

/// The save target for the lengthened version of the file at `path`: its
/// folder and stem as the platform splits paths.
pub fn save_target(path: &str) -> (t: SaveTarget)
    ensures
        fits_save_target(path@, t),
{
    let directory = path_parent(path);
    let stem = path_file_stem(path);
    let ghost stem_view = text_view(stem);
    let t = save_target_from(directory, stem);
    assert(save_name_text(stem_view) == t.file_name@);
    t
}

} // verus!
