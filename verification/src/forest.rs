//! Forests and trees of the single-window server: the tree directories it
//! accepts, the forester command lines it runs and the pages it renders.
use vstd::prelude::*;

verus! {

/// Why a tree directory pattern is refused.
#[derive(Clone, Copy, Debug, PartialEq, Eq, Structural)]
pub enum BuildError {
    DirError,
    /// The default directory `trees` does not exist.
    DefaultNotPresent,
    /// No existing directory matches the pattern.
    NoGlobsMatched,
}

/// A build of a forest.
pub struct Build {}

/// A tree of a forest.
pub struct Tree {}

/// A forest: its trees.
pub struct Forest {
    pub trees: Vec<Tree>,
}

/// The page that lists the trees of a forest.
pub struct TreeTemplate<'a> {
    pub trees: &'a Vec<Tree>,
}

/// The home page.
pub struct HomeTemplate {}

/// The outcome of checking a tree directory pattern: `matches` are the paths
/// that the pattern expands to, `any_exists` whether one of them exists. The
/// paths are accepted when one exists; otherwise the default pattern `trees`
/// and any other pattern are refused with their own errors.
pub fn validate_dirs(pattern: &str, any_exists: bool, matches: Vec<String>) -> (r: Result<
    Vec<String>,
    BuildError,
>)
    ensures
        any_exists ==> (r matches Ok(v) && v.deep_view() == matches.deep_view()),
        !any_exists && pattern@ == "trees"@ ==> r == Err::<Vec<String>, BuildError>(
            BuildError::DefaultNotPresent,
        ),
        !any_exists && pattern@ != "trees"@ ==> r == Err::<Vec<String>, BuildError>(
            BuildError::NoGlobsMatched,
        ),
{
    if any_exists {
        Ok(matches)
    } else if crate::text::str_equal(pattern, "trees") {
        Err(BuildError::DefaultNotPresent)
    } else {
        Err(BuildError::NoGlobsMatched)
    }
}

/// The single argument with which the front end runs forester to build the
/// forest: `build --dev --root <root> <trees_dir>`.
pub fn forester_build_arg(trees_dir: &str, root: &str) -> (r: String)
    ensures
        r@ == "build --dev --root "@ + root@ + " "@ + trees_dir@,
{
    let mut s = String::from_str("build --dev --root ");
    s.append(root);
    s.append(" ");
    s.append(trees_dir);
    s
}

/// The arguments with which forester creates a new tree with the given
/// prefix in the `trees` directory.
pub fn new_tree_args(prefix: &str) -> (r: Vec<String>)
    ensures
        r.deep_view() == seq!["new"@, "--dir"@, "trees"@, "--prefix"@, prefix@],
{
    let mut v: Vec<String> = Vec::new();
    v.push(String::from_str("new"));
    v.push(String::from_str("--dir"));
    v.push(String::from_str("trees"));
    v.push(String::from_str("--prefix"));
    v.push(String::from_str(prefix));
    assert(v.deep_view() =~= seq!["new"@, "--dir"@, "trees"@, "--prefix"@, prefix@]);
    v
}

/// The body of the answer to a broadcast request.
pub const BROADCAST_REPLY: &'static str = "msg sent";

} // verus!
