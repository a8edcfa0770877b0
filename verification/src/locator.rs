//! Where the backend's script directory lives, relative to the directory
//! the process works in.

use vstd::prelude::*;
use crate::paths::{join_path, joined_path, parent_of, parent_path};

verus! {

/// Name of the backend's script directory.
pub const BACKEND_DIR: &'static str = "src-python";

/// The backend directory as reached from one level below the project root.
pub const BACKEND_DIR_FROM_CHILD: &'static str = "../src-python";

/// The backend directory directly under `working_dir`.
pub open spec fn candidate_here(working_dir: Seq<char>) -> Seq<char> {
    joined_path(working_dir, BACKEND_DIR@)
}

/// The backend directory under the parent of `working_dir`, where
/// `working_dir` has a parent.
pub open spec fn candidate_beside(working_dir: Seq<char>) -> Option<Seq<char>> {
    match parent_path(working_dir) {
        Some(parent) => Some(joined_path(parent, BACKEND_DIR@)),
        None => None,
    }
}

/// The last resort: `../src-python` joined onto `working_dir`, whether or
/// not anything is there.
pub open spec fn candidate_fallback(working_dir: Seq<char>) -> Seq<char> {
    joined_path(working_dir, BACKEND_DIR_FROM_CHILD@)
}

/// The backend directory for `working_dir`, given which candidates exist.
/// The first match wins: the directory under `working_dir`, then the one
/// under its parent, then the fallback.
pub open spec fn located(working_dir: Seq<char>, here_exists: bool, beside_exists: bool) -> Seq<
    char,
> {
    if here_exists {
        candidate_here(working_dir)
    } else if candidate_beside(working_dir) is Some && beside_exists {
        candidate_beside(working_dir)->0
    } else {
        candidate_fallback(working_dir)
    }
}

/// The candidate directly under `working_dir`.
pub fn here(working_dir: &str) -> (path: String)
    ensures
        path@ == candidate_here(working_dir@),
{
    join_path(working_dir, BACKEND_DIR)
}

/// The candidate under the parent of `working_dir`, if it has a parent.
pub fn beside(working_dir: &str) -> (path: Option<String>)
    ensures
        path.deep_view() == candidate_beside(working_dir@),
{
    match parent_of(working_dir) {
        Some(parent) => Some(join_path(parent.as_str(), BACKEND_DIR)),
        None => None,
    }
}

/// The fallback candidate for `working_dir`.
pub fn fallback(working_dir: &str) -> (path: String)
    ensures
        path@ == candidate_fallback(working_dir@),
{
    join_path(working_dir, BACKEND_DIR_FROM_CHILD)
}

/// Resolves the backend directory for `working_dir`. `here_exists` says
/// whether the candidate under `working_dir` exists, `beside_exists`
/// whether the one under its parent does; the latter is ignored where
/// `working_dir` has no parent.
pub fn locate(working_dir: &str, here_exists: bool, beside_exists: bool) -> (backend: String)
    ensures
        backend@ == located(working_dir@, here_exists, beside_exists),
{
    if here_exists {
        return here(working_dir);
    }
    if beside_exists {
        match beside(working_dir) {
            Some(path) => {
                return path;
            },
            None => {},
        }
    }
    fallback(working_dir)
}

/// The first match wins. A backend under the working directory is chosen
/// whatever lies beside it; failing that, one under the parent is chosen
/// where there is a parent; failing both, the fallback is chosen without
/// asking whether it exists.
pub proof fn lemma_first_match_wins(working_dir: Seq<char>, beside_exists: bool)
    ensures
        located(working_dir, true, beside_exists) == candidate_here(working_dir),
        candidate_beside(working_dir) matches Some(path) ==> located(working_dir, false, true)
            == path,
        candidate_beside(working_dir) is None ==> located(working_dir, false, beside_exists)
            == candidate_fallback(working_dir),
        located(working_dir, false, false) == candidate_fallback(working_dir),
{
}

} // verus!
