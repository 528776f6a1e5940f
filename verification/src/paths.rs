//! Paths held as text, and what the standard library's path operations do
//! to the plain paths that this application builds.

use vstd::prelude::*;

verus! {

/// `/` and `\`, the characters that separate path components on some platform.
pub open spec fn is_path_separator(c: char) -> bool {
    c == '/' || c == '\\'
}

/// A single relative path component that is neither a root nor a prefix.
pub open spec fn plain_name(name: Seq<char>) -> bool {
    name.len() > 0 && forall|i: int| 0 <= i < name.len() ==> !is_path_separator(#[trigger] name[i]) && name[i] != ':'
}

/// A path to which a name is adjoined with exactly one separator: it is not
/// empty, does not begin with a backslash (so it has no verbatim prefix), and
/// does not end with a separator or with a drive letter's colon.
pub open spec fn adjoinable(base: Seq<char>) -> bool {
    base.len() > 0 && base[0] != '\\' && !is_path_separator(base.last()) && base.last() != ':'
}

/// `path` is `base`, one separator, then `name`.
pub open spec fn adjoined(base: Seq<char>, name: Seq<char>, path: Seq<char>) -> bool {
    &&& path.len() == base.len() + 1 + name.len()
    &&& path.take(base.len() as int) == base
    &&& is_path_separator(path[base.len() as int])
    &&& path.skip(base.len() + 1 as int) == name
}

/// The separator that a directory split by `sep` must not contain.
pub open spec fn other_separator(sep: char) -> char {
    if sep == '/' {
        '\\'
    } else {
        '/'
    }
}

/// Whether `dir` names a directory through plain components split by `sep`
/// only: no other separator, no doubled separator and no `.` or `..`
/// component.
pub open spec fn dir_split_by(dir: Seq<char>, sep: char) -> bool {
    &&& adjoinable(dir)
    &&& forall|i: int| 0 <= i < dir.len() ==> !(#[trigger] dir[i] == other_separator(sep))
    &&& forall|i: int| 0 <= i < dir.len() - 1 ==> !(#[trigger] dir[i] == sep && dir[i + 1] == sep)
    &&& forall|i: int|
        0 <= i < dir.len() && (i == 0 || dir[i - 1] == sep) ==> !(#[trigger] dir[i] == '.' && (i + 1
            == dir.len() || dir[i + 1] == sep || (dir[i + 1] == '.' && (i + 2 == dir.len() || dir[i
            + 2] == sep))))
}

/// `path` is a file name after a directory split by `sep`, split itself at
/// the `sep` at `k`.
pub open spec fn file_in_dir_split_by(path: Seq<char>, k: int, sep: char) -> bool {
    &&& 0 <= k < path.len()
    &&& path[k] == sep
    &&& forall|j: int| k < j < path.len() ==> !is_path_separator(#[trigger] path[j])
    &&& path.len() > k + 1
    &&& path.skip(k + 1) != "."@
    &&& path.skip(k + 1) != ".."@
    &&& dir_split_by(path.take(k), sep)
}

/// A directory written with `/` only, the same on every platform.
pub open spec fn plain_dir(dir: Seq<char>) -> bool {
    dir_split_by(dir, '/')
}

/// `path` is a file name after a plain directory, split at the `/` at `k`.
pub open spec fn file_in_plain_dir(path: Seq<char>, k: int) -> bool {
    file_in_dir_split_by(path, k, '/')
}

/// `path` is a file name after a directory written with `\` only, as
/// Windows writes its own paths, split at the `\` at `k`. On Windows the
/// `\` separates components; elsewhere such a path is one file name.
pub open spec fn file_in_backslash_dir(path: Seq<char>, k: int) -> bool {
    file_in_dir_split_by(path, k, '\\')
}

/// `result` is `name` put in place of the file name after `k`: the
/// directory before `k`, one separator and `name`, or, where the whole path
/// is one file name, `name` alone.
pub open spec fn renamed_in_place(path: Seq<char>, k: int, name: Seq<char>, result: Seq<char>) -> bool {
    adjoined(path.take(k), name, result) || result == name
}

/// `s` ends with `suffix`.
pub open spec fn ends_with(s: Seq<char>, suffix: Seq<char>) -> bool {
    s.len() >= suffix.len() && s.skip(s.len() - suffix.len()) == suffix
}

/// `path` is a plain `name` joined to `base`: the name alone after an empty
/// base; the base and the name after a base that ends with `/`; after a
/// base that ends with `\` or `:` either that or the base, one separator
/// and the name (`\` separates, and a drive such as `C:` takes no
/// separator, on Windows only); after any other base, the base, one
/// separator and the name.
pub open spec fn joined(base: Seq<char>, name: Seq<char>, path: Seq<char>) -> bool {
    if base.len() == 0 {
        path == name
    } else if base.last() == '/' {
        path == base + name
    } else if base.last() == '\\' || base.last() == ':' {
        path == base + name || adjoined(base, name, path)
    } else {
        adjoined(base, name, path)
    }
}

/// `Path::join`: a relative plain name is joined to a path that does not
/// begin with `\` (so it has no verbatim or UNC prefix): a separator is
/// added only where the path does not end with one. Which separator is
/// added is left unsaid.
#[verifier::external_body]
pub(crate) fn join_path(base: &str, name: &str) -> (path: String)
    ensures
        !(base@.len() > 0 && base@[0] == '\\') && plain_name(name@) ==> joined(base@, name@, path@),
{
    std::path::Path::new(base).join(name).to_string_lossy().into_owned()
}

/// A path that is one plain file name.
pub open spec fn bare_file_name(path: Seq<char>) -> bool {
    plain_name(path) && path != "."@ && path != ".."@
}

/// A path that is a plain file name right below the root `/`.
pub open spec fn file_at_root(path: Seq<char>) -> bool {
    path.len() > 1 && path[0] == '/' && bare_file_name(path.skip(1))
}

/// `Path::with_file_name`: a file in a plain directory has its name replaced,
/// which keeps the directory and adjoins the new name with one separator.
/// A file after a `\` directory has its name replaced so on Windows; on
/// other platforms that path is one file name, whose parent is empty, so the
/// result is the new name itself. A bare file name becomes the new name,
/// and a file right below `/` the new name below `/`. Which separator is
/// adjoined is left unsaid.
#[verifier::external_body]
pub(crate) fn replace_file_name(path: &str, name: &str) -> (replaced: String)
    ensures
        forall|k: int|
            file_in_plain_dir(path@, k) && plain_name(name@) ==> #[trigger] adjoined(
                path@.take(k),
                name@,
                replaced@,
            ),
        forall|k: int|
            #![trigger file_in_backslash_dir(path@, k)]
            file_in_backslash_dir(path@, k) && name@.len() > 0 && !is_path_separator(name@[0])
                ==> renamed_in_place(path@, k, name@, replaced@),
        bare_file_name(path@) && plain_name(name@) ==> replaced@ == name@,
        file_at_root(path@) && plain_name(name@) ==> replaced@ == "/"@ + name@,
{
    std::path::Path::new(path).with_file_name(name).to_string_lossy().into_owned()
}

pub proof fn lemma_adjoined_is_adjoinable(base: Seq<char>, name: Seq<char>, path: Seq<char>)
    requires
        adjoinable(base),
        plain_name(name),
        adjoined(base, name, path),
    ensures
        adjoinable(path),
{
    assert(path[0] == path.take(base.len() as int)[0]);
    assert(path.last() == path.skip(base.len() + 1 as int).last());
}

/// `Path::file_name`: the name after the last separator of a file in a
/// plain directory. After a `\` directory it is the name after the `\` on
/// Windows and the whole path elsewhere. A bare file name is its own name,
/// and a file right below `/` is named by what follows the `/`.
#[verifier::external_body]
pub(crate) fn file_name_of(path: &str) -> (name: String)
    ensures
        forall|k: int| #[trigger] file_in_plain_dir(path@, k) ==> name@ == path@.skip(k + 1),
        forall|k: int|
            #[trigger] file_in_backslash_dir(path@, k) ==> name@ == path@.skip(k + 1) || name@
                == path@,
        bare_file_name(path@) ==> name@ == path@,
        file_at_root(path@) ==> name@ == path@.skip(1),
{
    std::path::Path::new(path).file_name().unwrap_or_default().to_string_lossy().into_owned()
}

} // verus!
