//! Filesystem paths as strings, through `std::path`.
use vstd::prelude::*;

use crate::text::opt_string_view;

verus! {

/// What `Path::parent` returns for `path`.
pub uninterp spec fn path_parent_spec(path: Seq<char>) -> Option<Seq<char>>;

/// What `Path::file_name` returns for `path`.
pub uninterp spec fn path_file_name_spec(path: Seq<char>) -> Option<Seq<char>>;

/// The position of the last `.` in `name`, or -1 when it has none.
pub open spec fn last_dot(name: Seq<char>) -> int
    decreases name.len(),
{
    if name.len() == 0 {
        -1
    } else if name.last() == '.' {
        name.len() - 1
    } else {
        last_dot(name.drop_last())
    }
}

/// The extension of a file name: the text after its last `.`; none when it
/// has no `.`, or when its only `.` is its first character.
pub open spec fn extension_of(name: Seq<char>) -> Option<Seq<char>> {
    let i = last_dot(name);
    if i <= 0 {
        None
    } else {
        Some(name.subrange(i + 1, name.len() as int))
    }
}

/// What `Path::extension` returns for `path`: the extension of its file name,
/// none when it has no file name.
pub open spec fn path_extension_spec(path: Seq<char>) -> Option<Seq<char>> {
    match path_file_name_spec(path) {
        None => None,
        Some(name) => extension_of(name),
    }
}

/// What `Path::join` returns for `base` and `child`.
pub uninterp spec fn path_join_spec(base: Seq<char>, child: Seq<char>) -> Seq<char>;

/// `std::path::Path::parent`: the path without its final component, if it has
/// one. The result is a prefix of a UTF-8 path, so the conversion is exact.
#[verifier::external_body]
pub(crate) fn path_parent(path: &str) -> (r: Option<String>)
    ensures
        opt_string_view(r) == path_parent_spec(path@),
{
    std::path::Path::new(path).parent().map(|p| p.to_string_lossy().into_owned())
}

/// `std::path::Path::file_name`: the final component, unless it is `..`.
#[verifier::external_body]
pub(crate) fn path_file_name(path: &str) -> (r: Option<String>)
    ensures
        opt_string_view(r) == path_file_name_spec(path@),
{
    std::path::Path::new(path).file_name().map(|n| n.to_string_lossy().into_owned())
}

/// `std::path::Path::extension`: as its documentation states, none when there is
/// no file name, none when the file name holds no `.` or holds only a leading
/// one, and otherwise the file name's text after its final `.`.
#[verifier::external_body]
pub(crate) fn path_extension(path: &str) -> (r: Option<String>)
    ensures
        opt_string_view(r) == path_extension_spec(path@),
{
    std::path::Path::new(path).extension().map(|e| e.to_string_lossy().into_owned())
}

/// `std::path::Path::join`: `child` adjoined to `base`. Its documentation
/// states that an absolute `child` replaces `base` (on Unix a path is absolute
/// when it starts with `/`); how a relative `child` is joined it shows only by
/// example, so that result is named and not spelled out.
#[verifier::external_body]
pub(crate) fn path_join(base: &str, child: &str) -> (r: String)
    ensures
        r@ == path_join_spec(base@, child@),
        child@.len() > 0 && child@[0] == '/' ==> r@ == child@,
{
    std::path::Path::new(base).join(child).to_string_lossy().into_owned()
}

} // verus!
