//! The command line: the options of the server programs and the decisions
//! that the `forest` command makes on its subcommands' arguments.
use vstd::prelude::*;
use crate::watch::{ForesterCommand, WatchError, forester_command_for, is_plain_word, shlex_words};

verus! {

/// The port on which the generated files are served unless another is given.
pub const DEFAULT_PORT: u16 = 8080;

/// The options of the server programs.
pub struct Args {
    /// The port on which to host the generated files.
    pub port: u16,
    /// The directory that holds the trees.
    pub dir: String,
    /// The root tree.
    pub root: String,
    /// Whether to log verbosely.
    pub verbose: bool,
}

impl Default for Args {
    /// Port 8080, trees in `./trees`, root tree `index`, quiet.
    fn default() -> (r: Self)
        ensures
            r.port == DEFAULT_PORT,
            r.dir@ == "./trees"@,
            r.root@ == "index"@,
            !r.verbose,
    {
        Args {
            port: DEFAULT_PORT,
            dir: String::from_str("./trees"),
            root: String::from_str("index"),
            verbose: false,
        }
    }
}

/// The path of the root tree inside the tree directory, without extension:
/// `dir/root`.
pub fn root_probe_path(dir: &str, root: &str) -> (r: String)
    ensures
        r@ == dir@ + "/"@ + root@,
{
    let mut s = String::from_str(dir);
    s.append("/");
    s.append(root);
    s
}

/// The file of the root tree: `dir/root.tree`.
pub fn root_tree_file(dir: &str, root: &str) -> (r: String)
    ensures
        r@ == dir@ + "/"@ + root@ + ".tree"@,
{
    let mut s = root_probe_path(dir, root);
    s.append(".tree");
    s
}

/// Why the `forest` command refuses its arguments.
#[derive(Clone, Copy, Debug, PartialEq, Eq, Structural)]
pub enum CliError {
    /// `forest watch` was given no arguments to pass on to forester.
    MissingForesterArgs,
    /// The arguments for forester are not a valid shell word list.
    UnparsableForesterArgs,
}

/// The forester arguments of `forest watch`, which must be given.
pub fn watch_forester_args(opts: Option<String>) -> (r: Result<String, CliError>)
    ensures
        r is Err <==> opts is None,
        r matches Err(e) ==> e == CliError::MissingForesterArgs,
        r matches Ok(s) ==> s@ == opts->0@,
{
    match opts {
        Some(s) => Ok(s),
        None => Err(CliError::MissingForesterArgs),
    }
}

/// The forester arguments of `forest serve`: those given, or `build`.
pub fn serve_forester_args(opts: Option<String>) -> (r: String)
    ensures
        r@ == (match opts {
            Some(s) => s@,
            None => "build"@,
        }),
{
    match opts {
        Some(s) => s,
        None => String::from_str("build"),
    }
}

/// The forester command that `forest serve` runs before serving.
pub fn serve_command(opts: Option<String>) -> (r: Result<ForesterCommand, CliError>)
    ensures
        ({
            let line = match opts {
                Some(s) => s@,
                None => "build"@,
            };
            &&& r is Err <==> shlex_words(line) is None
            &&& r matches Err(e) ==> e == CliError::UnparsableForesterArgs
            &&& r matches Ok(c) ==> c.program@ == "forester"@ && shlex_words(line) == Some(
                c.args.deep_view(),
            )
            &&& is_plain_word(line) ==> (r matches Ok(c) && c.args.deep_view() == seq![line])
        }),
{
    let line = serve_forester_args(opts);
    match forester_command_for(line.as_str()) {
        Ok(c) => Ok(c),
        Err(_) => Err(CliError::UnparsableForesterArgs),
    }
}

/// Without arguments `forest serve` runs `forester build`: its default line
/// is one plain word, so it splits into that single word.
pub proof fn lemma_serve_default_is_build()
    ensures
        is_plain_word("build"@),
{
    reveal_strlit("build");
}

} // verus!
