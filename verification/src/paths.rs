//! Paths, held as strings and handled by `std::path::Path` with the rules of
//! the platform the program is built for.
use vstd::prelude::*;

use crate::text::owned;

verus! {

/// The name of the configuration file kept beside the server.
pub const CONFIG_FILE_NAME: &'static str = "pumpkin-ui.toml";

/// The result of `Path::is_absolute` on the path with these characters.
pub uninterp spec fn path_is_absolute(path: Seq<char>) -> bool;

/// The result of `Path::join` on the paths with these characters.
pub uninterp spec fn path_join(base: Seq<char>, path: Seq<char>) -> Seq<char>;

/// The result of `Path::parent` on the path with these characters: the path
/// without its last component, or none for the root and the empty path.
pub uninterp spec fn path_parent(path: Seq<char>) -> Option<Seq<char>>;

/// The result of `Path::file_name` on the path with these characters: the
/// last component where it is a normal name.
pub uninterp spec fn path_file_name(path: Seq<char>) -> Option<Seq<char>>;

/// Calls `std::path::Path::is_absolute`; the result is `path_is_absolute`
/// of the argument.
#[verifier::external_body]
pub(crate) fn is_absolute_path(path: &str) -> (r: bool)
    ensures
        r == path_is_absolute(path@),
{
    std::path::Path::new(path).is_absolute()
}

/// Calls `std::path::Path::join`; the result is `path_join` of the
/// arguments, converted back to a string. As the documentation of
/// `PathBuf::push` says, an absolute `path` replaces `base`; the contract
/// states that and nothing else of how the two are put together.
#[verifier::external_body]
pub(crate) fn join_paths(base: &str, path: &str) -> (r: String)
    ensures
        r@ == path_join(base@, path@),
        path_is_absolute(path@) ==> r@ == path@,
{
    std::path::Path::new(base).join(path).to_string_lossy().into_owned()
}

/// Calls `std::path::Path::parent`; the result is `path_parent` of the
/// argument, converted back to a string.
#[verifier::external_body]
pub(crate) fn parent_of(path: &str) -> (r: Option<String>)
    ensures
        match r {
            Some(p) => path_parent(path@) == Some(p@),
            None => path_parent(path@) is None,
        },
{
    match std::path::Path::new(path).parent() {
        Some(p) => Some(p.to_string_lossy().into_owned()),
        None => None,
    }
}

/// Calls `std::path::Path::file_name`; the result is `path_file_name` of the
/// argument, converted back to a string.
#[verifier::external_body]
pub(crate) fn file_name_of(path: &str) -> (r: Option<String>)
    ensures
        match r {
            Some(p) => path_file_name(path@) == Some(p@),
            None => path_file_name(path@) is None,
        },
{
    match std::path::Path::new(path).file_name() {
        Some(p) => Some(p.to_string_lossy().into_owned()),
        None => None,
    }
}

/// `path` as seen from `base`: itself where it is absolute, else joined
/// onto `base`.
pub open spec fn resolved(base: Seq<char>, path: Seq<char>) -> Seq<char> {
    if path_is_absolute(path) {
        path
    } else {
        path_join(base, path)
    }
}

/// `path` as seen from `base`: kept as it is where it is absolute, else
/// joined onto `base`.
pub fn resolve_path(base: &str, path: &str) -> (r: String)
    ensures
        r@ == resolved(base@, path@),
{
    if is_absolute_path(path) {
        owned(path)
    } else {
        join_paths(base, path)
    }
}

/// Resolving a path that is already absolute gives it back, so resolving a
/// resolved absolute path again changes nothing.
pub proof fn law_resolve_keeps_absolute(base: Seq<char>, path: Seq<char>)
    requires
        path_is_absolute(path),
    ensures
        resolved(base, path) == path,
        resolved(base, resolved(base, path)) == resolved(base, path),
{
}

/// Where the configuration file of a server directory lies.
pub fn config_path(base_directory: &str) -> (r: String)
    ensures
        r@ == path_join(base_directory@, CONFIG_FILE_NAME@),
{
    join_paths(base_directory, CONFIG_FILE_NAME)
}

/// The directory that holds the configuration file, against which the
/// configured paths are resolved; `.` where the path has no parent.
pub open spec fn base_directory_of(config_path: Seq<char>) -> Seq<char> {
    match path_parent(config_path) {
        Some(p) => p,
        None => "."@,
    }
}

/// The directory that holds the configuration file at `config_path`.
pub fn base_directory(config_path: &str) -> (r: String)
    ensures
        r@ == base_directory_of(config_path@),
{
    match parent_of(config_path) {
        Some(p) => p,
        None => owned("."),
    }
}

} // verus!
