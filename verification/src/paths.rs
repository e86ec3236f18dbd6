use vstd::prelude::*;

use crate::events::opt_string_view;
use crate::text::{strip_prefix_spec, strip_prefix_str};

verus! {

/// What `std::path::Path::strip_prefix` gives for `path` and `base` (both read as
/// UTF-8 paths of the target platform), as text; `None` where `base` is not a
/// leading run of whole components of `path`.
pub uninterp spec fn path_strip_prefix_of(path: Seq<char>, base: Seq<char>) -> Option<Seq<char>>;

/// What `std::path::Path::join` gives for `base` and `rel`, as text.
pub uninterp spec fn path_joined(base: Seq<char>, rel: Seq<char>) -> Seq<char>;

/// What `std::path::Path::parent` gives for `path`, as text.
pub uninterp spec fn path_parent_of(path: Seq<char>) -> Option<Seq<char>>;

/// Calls `std::path::Path::strip_prefix` on `path` with `base` and hands back
/// the remainder as a string. Trusted: the result is the named
/// `path_strip_prefix_of` of the two arguments; the component rules of the
/// target platform that decide it are not restated here.
#[verifier::external_body]
pub(crate) fn path_strip_prefix(path: &str, base: &str) -> (r: Option<String>)
    ensures
        opt_string_view(r) == path_strip_prefix_of(path@, base@),
{
    match std::path::Path::new(path).strip_prefix(base) {
        Ok(rel) => Some(rel.to_string_lossy().into_owned()),
        Err(_) => None,
    }
}

/// Calls `std::path::Path::join` on `base` with `rel`. Trusted: the result is
/// the named `path_joined` of the two arguments; how separators are placed,
/// and that an absolute `rel` replaces `base`, is not restated here.
#[verifier::external_body]
pub(crate) fn path_join(base: &str, rel: &str) -> (r: String)
    ensures
        r@ == path_joined(base@, rel@),
{
    std::path::Path::new(base).join(rel).to_string_lossy().into_owned()
}

/// Calls `std::path::Path::parent` on `path`. Trusted: the result is the named
/// `path_parent_of` of the argument, and, as std documents, the empty path has
/// no parent.
#[verifier::external_body]
pub(crate) fn path_parent(path: &str) -> (r: Option<String>)
    ensures
        opt_string_view(r) == path_parent_of(path@),
        path@.len() == 0 ==> r is None,
{
    match std::path::Path::new(path).parent() {
        Some(p) => Some(p.to_string_lossy().into_owned()),
        None => None,
    }
}

/// The scheme that marks a SQLite database url whose rest is a file path.
pub open spec fn sqlite_scheme() -> Seq<char> {
    seq!['s', 'q', 'l', 'i', 't', 'e', ':', '/', '/']
}

/// The directory that must exist before the database file of `db_url` can be
/// created: the parent of the file path after `sqlite://`, where that parent
/// is not empty.
pub open spec fn db_dir_spec(db_url: Seq<char>) -> Option<Seq<char>> {
    match strip_prefix_spec(db_url, sqlite_scheme()) {
        None => None,
        Some(file) => match path_parent_of(file) {
            Some(dir) => if dir.len() > 0 { Some(dir) } else { None },
            None => None,
        },
    }
}

/// The directory to create before opening the database at `db_url`, if any.
pub fn db_parent_dir(db_url: &str) -> (r: Option<String>)
    ensures
        opt_string_view(r) == db_dir_spec(db_url@),
{
    let scheme = "sqlite://";
    proof {
        reveal_strlit("sqlite://");
    }
    assert(scheme@ =~= sqlite_scheme());
    match strip_prefix_str(db_url, scheme) {
        None => None,
        Some(file) => match path_parent(file.as_str()) {
            Some(dir) => {
                if dir.as_str().is_empty() {
                    None
                } else {
                    Some(dir)
                }
            },
            None => None,
        },
    }
}

} // verus!
