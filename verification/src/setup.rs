//! How a sample starts: the window it opens and where its data lies.
use vstd::prelude::*;
use crate::text::same_text;

verus! {

/// The main window a sample opens.
#[derive(Debug, Clone, Copy, PartialEq, Eq, Structural)]
pub struct WindowLayout {
    /// Two synchronised map views side by side.
    pub dual: bool,
    pub width: i32,
    pub height: i32,
}

/// The samples that compare two views open a wide dual window; the
/// inference samples open a larger single view; every other sample opens a
/// single view.
pub open spec fn layout_for(name: Seq<char>) -> WindowLayout {
    if name == "MultiWindowSync"@ || name == "LabelCollisionOff"@ {
        WindowLayout { dual: true, width: 1280, height: 760 }
    } else if name == "ObjectDetectionInference"@ || name == "LandCoverInference"@ {
        WindowLayout { dual: false, width: 1280, height: 820 }
    } else {
        WindowLayout { dual: false, width: 1200, height: 800 }
    }
}

/// The window the sample called `name` opens.
pub fn window_layout(name: &str) -> (w: WindowLayout)
    ensures
        w == layout_for(name@),
{
    if same_text(name, "MultiWindowSync") || same_text(name, "LabelCollisionOff") {
        WindowLayout { dual: true, width: 1280, height: 760 }
    } else if same_text(name, "ObjectDetectionInference") || same_text(name, "LandCoverInference") {
        WindowLayout { dual: false, width: 1280, height: 820 }
    } else {
        WindowLayout { dual: false, width: 1200, height: 800 }
    }
}

/// A path separator on some platform.
pub open spec fn is_separator(c: char) -> bool {
    c == '/' || c == '\\'
}

/// An ASCII letter, as a drive letter is.
pub open spec fn is_ascii_letter(c: char) -> bool {
    ('a' <= c && c <= 'z') || ('A' <= c && c <= 'Z')
}

/// A path that is relative on every platform: empty, or neither starting
/// with a separator nor with a drive letter and `:`.
pub open spec fn plainly_relative(part: Seq<char>) -> bool {
    part.len() == 0 || (!is_separator(part[0]) && !(part.len() >= 2 && part[1] == ':' && is_ascii_letter(part[0])))
}

/// A path that does not begin like a verbatim prefix (`\\?\`): not two
/// separators followed by `?`.
pub open spec fn no_verbatim_prefix(base: Seq<char>) -> bool {
    !(base.len() >= 3 && is_separator(base[0]) && is_separator(base[1]) && base[2] == '?')
}

/// A path without a prefix on any platform: it starts neither with two
/// separators nor with a drive letter and `:`.
pub open spec fn unprefixed(base: Seq<char>) -> bool {
    !(base.len() >= 2 && is_separator(base[0]) && is_separator(base[1]))
        && !(base.len() >= 2 && base[1] == ':' && is_ascii_letter(base[0]))
}

/// What joining a relative `part` onto `base` gives: `base`, then a
/// separator where one is needed, then `part`. An empty base gives the part;
/// a base ending in `/` takes the part as it is; an unprefixed base that
/// ends in no separator takes a separator first. A base ending in a backslash, or
/// one with a prefix, may take one or not, as the platform decides.
pub open spec fn joined(base: Seq<char>, part: Seq<char>, r: Seq<char>) -> bool {
    if base.len() == 0 {
        r == part
    } else if base.last() == '/' {
        r == base + part
    } else if !is_separator(base.last()) && unprefixed(base) {
        exists|c: char| is_separator(c) && r == base + seq![c] + part
    } else {
        r == base + part || exists|c: char| is_separator(c) && r == base + seq![c] + part
    }
}

/// A join is the base, perhaps a separator, and the part.
proof fn lemma_joined_shape(base: Seq<char>, part: Seq<char>, r: Seq<char>)
    requires
        joined(base, part, r),
    ensures
        r == base + part || exists|c: char| is_separator(c) && r == base + seq![c] + part,
{
    if base.len() == 0 {
        assert(base + part =~= part);
    }
}

/// Joins `part` onto `base` with `std::path::Path::join`. Both come from
/// text, so the joined path read back as text loses nothing. For a part
/// that is relative everywhere, onto a base without a verbatim prefix, that
/// text is the base, the platform's separator where one is needed, and the
/// part; which separator is left unsaid, as it depends on the platform. A
/// part that starts with `/` is absolute, or rooted on Windows, and onto a
/// base without a prefix the text is the part alone.
#[verifier::external_body]
fn path_join(base: &str, part: &str) -> (r: std::path::PathBuf)
    ensures
        plainly_relative(part@) && no_verbatim_prefix(base@) ==> joined(base@, part@, lossy_text(r)),
        part@.len() > 0 && part@[0] == '/' && unprefixed(base@) ==> lossy_text(r) == part@,
{
    std::path::Path::new(base).join(part)
}

/// `part` joined onto `base`, as text.
fn join_path(base: &str, part: &str) -> (r: String)
    ensures
        plainly_relative(part@) && no_verbatim_prefix(base@) ==> joined(base@, part@, r@),
        part@.len() > 0 && part@[0] == '/' && unprefixed(base@) ==> r@ == part@,
{
    let path = path_join(base, part);
    lossy_path_text(&path)
}

/// Joining "../data" keeps the first two characters of a base that has
/// them, and never makes a verbatim prefix.
proof fn lemma_join_data(base: Seq<char>, r: Seq<char>)
    requires
        joined(base, "../data"@, r),
    ensures
        no_verbatim_prefix(base) ==> no_verbatim_prefix(r),
        base.len() >= 2 ==> r.len() >= 2 && r[0] == base[0] && r[1] == base[1],
{
    reveal_strlit("../data");
    let d = "../data"@;
    lemma_joined_shape(base, d, r);
    if r == base + d {
        assert(r.len() == base.len() + 7);
        if base.len() >= 2 {
            assert(r[0] == base[0] && r[1] == base[1]);
        }
        if base.len() >= 3 {
            assert(r[2] == base[2]);
        } else {
            assert(r[2] == d[2 - base.len()]);
        }
    } else {
        let c = choose|c: char| is_separator(c) && r == base + seq![c] + d;
        assert(r.len() == base.len() + 8);
        if base.len() >= 2 {
            assert(r[0] == base[0] && r[1] == base[1]);
        }
        if base.len() >= 3 {
            assert(r[2] == base[2]);
        } else if base.len() == 2 {
            assert(r[2] == c);
        } else {
            assert(r[2] == d[1 - base.len()]);
        }
    }
}

/// The sample data directory under `root`, then `default` inside it:
/// `root`, `../data` and `default` joined in turn. An absolute `default`
/// under a root without a prefix is the path itself.
pub fn extra_path(root: &str, default: &str) -> (r: String)
    ensures
        plainly_relative(default@) && no_verbatim_prefix(root@) ==> exists|data: Seq<char>|
            joined(root@, "../data"@, data) && joined(data, default@, r@),
        default@.len() > 0 && default@[0] == '/' && root@.len() >= 2 && unprefixed(root@) ==> r@ == default@,
{
    let data = join_path(root, "../data");
    proof {
        reveal_strlit("../data");
        assert(plainly_relative("../data"@));
        if no_verbatim_prefix(root@) {
            lemma_join_data(root@, data@);
        }
        if root@.len() >= 2 && unprefixed(root@) {
            assert(no_verbatim_prefix(root@));
            lemma_join_data(root@, data@);
            assert(unprefixed(data@));
        }
    }
    join_path(data.as_str(), default)
}

#[verifier::external_type_specification]
#[verifier::external_body]
pub struct ExPathBuf(std::path::PathBuf);

/// The text that `PathBuf::to_string_lossy` reads from `path`: its
/// characters, with any byte sequence that is not valid Unicode replaced by
/// U+FFFD. It depends on the path alone.
pub uninterp spec fn lossy_text(path: std::path::PathBuf) -> Seq<char>;

/// Reads a data file's path as text with `to_string_lossy`. The result is
/// named by `lossy_text`; how the path's bytes are decoded is the platform's
/// and is not spelled out.
#[verifier::external_body]
fn lossy_path_text(path: &std::path::PathBuf) -> (r: String)
    ensures
        r@ == lossy_text(*path),
{
    path.to_string_lossy().into_owned()
}

/// The path of a data file as the layer loader takes it: the path's text,
/// read lossily.
pub fn data_path(fallback: std::path::PathBuf) -> (r: String)
    ensures
        r@ == lossy_text(fallback),
{
    lossy_path_text(&fallback)
}

} // verus!
