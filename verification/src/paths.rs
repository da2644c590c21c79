//! Filesystem paths of the workspace.
use vstd::prelude::*;

verus! {

/// `std::path::PathBuf`, a path; opaque here.
#[verifier::external_type_specification]
#[verifier::external_body]
pub struct ExPathBuf(std::path::PathBuf);

/// `Clone` of `std::path::PathBuf` copies the path.
pub assume_specification[ <std::path::PathBuf as std::clone::Clone>::clone ](
    p: &std::path::PathBuf,
) -> (r: std::path::PathBuf)
    ensures
        r == *p,
;

/// Reads the user's home directory with `dirs::home_dir`.
///
/// Nothing is claimed: the answer depends on the environment.
#[verifier::external_body]
fn home_dir() -> (r: Option<std::path::PathBuf>) {
    dirs::home_dir()
}

/// The path that `std::path::PathBuf::from` makes of a text.
pub uninterp spec fn path_of(text: Seq<char>) -> std::path::PathBuf;

/// The path that `std::path::Path::join` makes of a base and a part.
pub uninterp spec fn joined_path(base: std::path::PathBuf, part: Seq<char>) -> std::path::PathBuf;

/// Makes a path from text with `std::path::PathBuf::from`.
///
/// Claimed: the path is a function of the text alone (`path_of`); what it
/// holds is left unsaid.
#[verifier::external_body]
pub(crate) fn path_from(text: &str) -> (p: std::path::PathBuf)
    ensures
        p == path_of(text@),
{
    std::path::PathBuf::from(text)
}

/// Extends a path by one more part with `std::path::Path::join`.
///
/// Claimed: the path is a function of the base and the part alone
/// (`joined_path`); what it holds is left unsaid.
#[verifier::external_body]
pub(crate) fn path_join(base: &std::path::PathBuf, part: &str) -> (p: std::path::PathBuf)
    ensures
        p == joined_path(*base, part@),
{
    base.join(part)
}

/// The workspace directory under a home directory, or under the current
/// directory (`.`) where there is no home.
pub open spec fn workspace_under(home: Option<std::path::PathBuf>) -> std::path::PathBuf {
    let base = match home {
        Some(h) => h,
        None => path_of("."@),
    };
    joined_path(joined_path(base, ".evolution_reasoning"@), "workspace"@)
}

/// Whether a path is the workspace directory of some home directory (the
/// home depends on the environment).
pub open spec fn is_workspace_root(p: std::path::PathBuf) -> bool {
    exists|home: Option<std::path::PathBuf>| p == #[trigger] workspace_under(home)
}

/// The workspace directory: `.evolution_reasoning/workspace` under the home
/// directory (under the current directory where there is no home).
pub fn workspace_root() -> (p: std::path::PathBuf)
    ensures
        is_workspace_root(p),
{
    let found = home_dir();
    let ghost found_view = found;
    let home = match found {
        Some(h) => h,
        None => path_from("."),
    };
    let app = path_join(&home, ".evolution_reasoning");
    let p = path_join(&app, "workspace");
    assert(p == workspace_under(found_view));
    p
}

} // verus!

verus! {

/// Writes a path as text with `std::path::Path::display` and `to_string`.
///
/// Nothing is claimed of the text.
#[verifier::external_body]
pub(crate) fn path_display(p: &std::path::PathBuf) -> (s: String) {
    p.display().to_string()
}

} // verus!
