//! Path arithmetic. Paths travel through the library as text; joining,
//! taking a parent and quoting are left to the platform's own path type.

use vstd::prelude::*;

verus! {

/// The path that `std::path::Path::join` makes of `base` and `child`, by
/// the path rules of the platform the crate is built for.
pub uninterp spec fn joined_path(base: Seq<char>, child: Seq<char>) -> Seq<char>;

/// The path that `std::path::Path::parent` gives for `path`: the path
/// without its last component, or `None` where it has none to drop.
pub uninterp spec fn parent_path(path: Seq<char>) -> Option<Seq<char>>;

/// The `Debug` rendering of `path` as a `std::path::Path`: the path in
/// double quotes, with the characters that need it escaped.
pub uninterp spec fn quoted_path(path: Seq<char>) -> Seq<char>;

/// Joins `child` onto `base` with `std::path::Path::join`. The contract
/// only names the result: it is a function of the two texts.
#[verifier::external_body]
pub(crate) fn join_path(base: &str, child: &str) -> (joined: String)
    ensures
        joined@ == joined_path(base@, child@),
{
    std::path::Path::new(base).join(child).to_string_lossy().into_owned()
}

/// Takes the parent of `path` with `std::path::Path::parent`. The contract
/// only names the result, and says that `None` comes back as `None`.
#[verifier::external_body]
pub(crate) fn parent_of(path: &str) -> (parent: Option<String>)
    ensures
        parent.deep_view() == parent_path(path@),
{
    match std::path::Path::new(path).parent() {
        Some(p) => Some(p.to_string_lossy().into_owned()),
        None => None,
    }
}

/// Renders `path` with the `Debug` formatting of `std::path::Path`. The
/// contract only names the result: it is a function of the text.
#[verifier::external_body]
pub(crate) fn quote_path(path: &str) -> (quoted: String)
    ensures
        quoted@ == quoted_path(path@),
{
    format!("{:?}", std::path::Path::new(path))
}

} // verus!
