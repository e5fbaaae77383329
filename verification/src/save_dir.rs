//! Where exported logs are saved.
//!
//! A directory given on the command line is taken as it is written: it is
//! not expanded and need not exist. Without one, logs go to the user's home
//! directory, and where the platform knows none, nothing can be saved.

use std::path::PathBuf;
use vstd::prelude::*;

verus! {

/// `std::path::PathBuf`, carried through without looking inside.
#[verifier::external_type_specification]
#[verifier::external_body]
pub struct ExPathBuf(std::path::PathBuf);

/// `directories::BaseDirs`, carried from its constructor to its getter.
#[verifier::external_type_specification]
#[verifier::external_body]
pub struct ExBaseDirs(directories::BaseDirs);

/// The path that `PathBuf::from` makes of a text.
pub uninterp spec fn path_of(text: Seq<char>) -> PathBuf;

/// `PathBuf::from` on a `String`: the path is made of the text alone, so
/// the same text always gives the same path.
#[verifier::external_body]
fn path_from_string(text: String) -> (path: PathBuf)
    ensures
        path == path_of(text@),
{
    PathBuf::from(text)
}

/// `directories::BaseDirs::new`: the platform's standard directories for
/// the current user, or `None` when no home directory can be found. The
/// answer depends on the environment, so nothing is claimed of it.
#[verifier::external_body]
fn base_dirs() -> Option<directories::BaseDirs> {
    directories::BaseDirs::new()
}

/// `directories::BaseDirs::home_dir`, copied into an owned path.
#[verifier::external_body]
fn home_dir_of(dirs: &directories::BaseDirs) -> PathBuf {
    dirs.home_dir().to_path_buf()
}

/// The directory to save to, given what the user asked for and the home
/// directory that the platform reported.
pub open spec fn resolved_save_dir(requested: Option<Seq<char>>, home: Option<PathBuf>) -> Option<
    PathBuf,
> {
    match requested {
        Some(text) => Some(path_of(text)),
        None => home,
    }
}

/// The user's home directory, where the platform knows one.
pub(crate) fn platform_home_dir() -> Option<PathBuf> {
    match base_dirs() {
        Some(dirs) => Some(home_dir_of(&dirs)),
        None => None,
    }
}

/// Picks the directory to save to: the requested one if there is one,
/// else `home`.
pub fn save_dir_from(requested: Option<String>, home: Option<PathBuf>) -> (dir: Option<PathBuf>)
    ensures
        dir == resolved_save_dir(requested.deep_view(), home),
{
    match requested {
        Some(text) => Some(path_from_string(text)),
        None => home,
    }
}

/// Resolves the directory to save to. The platform is asked for the home
/// directory only when none was requested, and its answer, whatever it is,
/// is then the result.
pub fn resolve_save_dir(requested: Option<String>) -> (dir: Option<PathBuf>)
    ensures
        requested matches Some(text) ==> dir == Some(path_of(text@)),
{
    match requested {
        Some(text) => save_dir_from(Some(text), None),
        None => save_dir_from(None, platform_home_dir()),
    }
}

} // verus!
