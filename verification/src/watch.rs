//! The file watcher's decisions: which directory entries are watched, which
//! file events count, what a batch of events asks for, how the forester
//! command line is made, and what is broadcast once a build has run.
use vstd::prelude::*;
use vstd::utf8::{decode_utf8, valid_utf8};
use crate::text::{has_infix, str_contains, str_equal};

verus! {

/// The signal carried by a watch event, as far as the watcher tells them
/// apart.
#[derive(Clone, Copy, Debug, PartialEq, Eq, Structural)]
pub enum SignalKind {
    /// The interrupt signal (Ctrl-C).
    Interrupt,
    /// Any other signal.
    Other,
}

/// A tag of a watch event.
#[derive(Clone, Debug)]
pub enum EventTag {
    /// The event is about this path.
    Path { path: String },
    /// The event is about a signal delivered to the watcher.
    Signal(SignalKind),
    /// Any other tag (file event kind, source, process, ...).
    Other,
}

/// A watch event: the tags that describe it.
#[derive(Clone, Debug)]
pub struct WatchEvent {
    pub tags: Vec<EventTag>,
}

/// What a batch of watch events asks for.
#[derive(Clone, Copy, Debug, PartialEq, Eq, Structural)]
pub enum ActionStep {
    /// An interrupt arrived: leave the program.
    Exit,
    /// Files changed, or the initial (untagged) event arrived: run forester.
    Rebuild,
    /// Nothing to do.
    Idle,
}

/// Why the watcher cannot go on.
#[derive(Clone, Copy, Debug, PartialEq, Eq, Structural)]
pub enum WatchError {
    /// The forester arguments are not a valid shell word list.
    UnparsableArguments,
    /// The output of forester is not UTF-8.
    OutputNotUtf8,
}

/// The command that the watcher runs: a program and its arguments.
#[derive(Clone, Debug)]
pub struct ForesterCommand {
    pub program: String,
    pub args: Vec<String>,
}

/// What the watcher reports once a build has run: whether it succeeded and
/// the data of the server-sent event that it broadcasts.
#[derive(Clone, Debug)]
pub struct BuildReport {
    pub succeeded: bool,
    pub message: String,
}

pub open spec fn tag_is_interrupt(t: EventTag) -> bool {
    t matches EventTag::Signal(SignalKind::Interrupt)
}

pub open spec fn tag_is_path(t: EventTag) -> bool {
    t is Path
}

/// Some event of the batch carries the interrupt signal.
pub open spec fn has_interrupt(events: Seq<WatchEvent>) -> bool {
    exists|i: int, j: int|
        0 <= i < events.len() && 0 <= j < events[i].tags@.len() && #[trigger] tag_is_interrupt(
            events[i].tags@[j],
        )
}

/// Some event of the batch is about a path.
pub open spec fn has_path(events: Seq<WatchEvent>) -> bool {
    exists|i: int, j: int|
        0 <= i < events.len() && 0 <= j < events[i].tags@.len() && #[trigger] tag_is_path(
            events[i].tags@[j],
        )
}

/// Some event of the batch has no tag at all (the initial build request).
pub open spec fn has_untagged(events: Seq<WatchEvent>) -> bool {
    exists|i: int| 0 <= i < events.len() && #[trigger] events[i].tags@.len() == 0
}

/// The step that a batch of events asks for: an interrupt wins; otherwise a
/// path or an untagged event asks for a build.
pub open spec fn action_step(events: Seq<WatchEvent>) -> ActionStep {
    if has_interrupt(events) {
        ActionStep::Exit
    } else if has_path(events) || has_untagged(events) {
        ActionStep::Rebuild
    } else {
        ActionStep::Idle
    }
}

/// Whether the tags of one event carry the interrupt signal.
fn tags_have_interrupt(tags: &Vec<EventTag>) -> (r: bool)
    ensures
        r == exists|j: int| 0 <= j < tags@.len() && #[trigger] tag_is_interrupt(tags@[j]),
{
    for j in 0..tags.len()
        invariant
            forall|k: int| 0 <= k < j ==> !#[trigger] tag_is_interrupt(tags@[k]),
    {
        if let EventTag::Signal(SignalKind::Interrupt) = &tags[j] {
            assert(tag_is_interrupt(tags@[j as int]));
            return true;
        }
    }
    false
}

/// Whether the tags of one event name a path.
fn tags_have_path(tags: &Vec<EventTag>) -> (r: bool)
    ensures
        r == exists|j: int| 0 <= j < tags@.len() && #[trigger] tag_is_path(tags@[j]),
{
    for j in 0..tags.len()
        invariant
            forall|k: int| 0 <= k < j ==> !#[trigger] tag_is_path(tags@[k]),
    {
        if let EventTag::Path { .. } = &tags[j] {
            assert(tag_is_path(tags@[j as int]));
            return true;
        }
    }
    false
}

/// Decides what a batch of watch events asks for.
pub fn decide_action(events: &Vec<WatchEvent>) -> (r: ActionStep)
    ensures
        r == action_step(events@),
{
    let mut interrupted = false;
    let mut paths = false;
    let mut untagged = false;
    for i in 0..events.len()
        invariant
            interrupted == exists|a: int, b: int|
                0 <= a < i && 0 <= b < events@[a].tags@.len() && #[trigger] tag_is_interrupt(
                    events@[a].tags@[b],
                ),
            paths == exists|a: int, b: int|
                0 <= a < i && 0 <= b < events@[a].tags@.len() && #[trigger] tag_is_path(
                    events@[a].tags@[b],
                ),
            untagged == exists|a: int| 0 <= a < i && #[trigger] events@[a].tags@.len() == 0,
    {
        let e = &events[i];
        let hi = tags_have_interrupt(&e.tags);
        let hp = tags_have_path(&e.tags);
        let hu = e.tags.len() == 0;
        proof {
            if hi {
                let b = choose|b: int| 0 <= b < e.tags@.len() && #[trigger] tag_is_interrupt(e.tags@[b]);
                assert(tag_is_interrupt(events@[i as int].tags@[b]));
            }
            if hp {
                let b = choose|b: int| 0 <= b < e.tags@.len() && #[trigger] tag_is_path(e.tags@[b]);
                assert(tag_is_path(events@[i as int].tags@[b]));
            }
            if interrupted {
                let (a, b) = choose|a: int, b: int|
                    0 <= a < i && 0 <= b < events@[a].tags@.len() && #[trigger] tag_is_interrupt(
                        events@[a].tags@[b],
                    );
                assert(tag_is_interrupt(events@[a].tags@[b]));
            }
            if paths {
                let (a, b) = choose|a: int, b: int|
                    0 <= a < i && 0 <= b < events@[a].tags@.len() && #[trigger] tag_is_path(
                        events@[a].tags@[b],
                    );
                assert(tag_is_path(events@[a].tags@[b]));
            }
            if hu {
                assert(events@[i as int].tags@.len() == 0);
            }
        }
        interrupted = interrupted || hi;
        paths = paths || hp;
        untagged = untagged || hu;
    }
    if interrupted {
        ActionStep::Exit
    } else if paths || untagged {
        ActionStep::Rebuild
    } else {
        ActionStep::Idle
    }
}

/// The extension of a path as `std::path::Path::extension` computes it (the
/// part of the file name after its last dot), where it has one.
pub uninterp spec fn path_extension(path: Seq<char>) -> Option<Seq<char>>;

/// `std::path::Path::extension` on a path given as a string. The contract
/// claims that the result is the extension that std computes for that path;
/// what that extension is, is not stated here.
#[verifier::external_body]
pub(crate) fn extension_of(path: &str) -> (r: Option<String>)
    ensures
        r is Some <==> path_extension(path@) is Some,
        r matches Some(e) ==> path_extension(path@) == Some(e@),
{
    std::path::Path::new(path).extension().and_then(|e| e.to_str()).map(|e| e.to_string())
}

/// The extension names a forester tree file.
pub open spec fn is_tree_ext(ext: Option<Seq<char>>) -> bool {
    ext == Some("tree"@)
}

/// A tag counts for the watcher when it is about a path with the `tree`
/// extension.
pub open spec fn tag_is_tree_path(t: EventTag) -> bool {
    t matches EventTag::Path { path } && is_tree_ext(path_extension(path@))
}

/// Whether an extension, as the path library reports it, is `tree`.
pub fn is_tree_extension(ext: &Option<String>) -> (r: bool)
    ensures
        r == (ext matches Some(e) && e@ == "tree"@),
{
    match ext {
        Some(e) => str_equal(e.as_str(), "tree"),
        None => false,
    }
}

/// A path tag passes the filter exactly when the path's extension is `tree`,
/// wherever the path points (absolute or relative, in any directory); no
/// other tag passes.
pub proof fn lemma_tree_tag_exact(t: EventTag)
    ensures
        t matches EventTag::Path { path } ==> (tag_is_tree_path(t) <==> path_extension(path@)
            == Some(seq!['t', 'r', 'e', 'e'])),
        !(t is Path) ==> !tag_is_tree_path(t),
{
    reveal_strlit("tree");
    assert("tree"@ =~= seq!['t', 'r', 'e', 'e']);
}

/// The watcher's filter: an event passes when one of its tags is a path with
/// the `tree` extension.
pub fn check_event(tags: &Vec<EventTag>) -> (r: bool)
    ensures
        r == exists|j: int| 0 <= j < tags@.len() && #[trigger] tag_is_tree_path(tags@[j]),
{
    for j in 0..tags.len()
        invariant
            forall|k: int| 0 <= k < j ==> !#[trigger] tag_is_tree_path(tags@[k]),
    {
        if let EventTag::Path { path } = &tags[j] {
            let ext = extension_of(path.as_str());
            if is_tree_extension(&ext) {
                assert(tag_is_tree_path(tags@[j as int]));
                return true;
            }
        }
    }
    false
}

/// A top-level directory entry is watched unless it is version-control or
/// package data, or one of the output, asset and theme directories.
pub open spec fn is_watched_entry(name: Seq<char>) -> bool {
    &&& !has_infix(name, ".git"@)
    &&& !has_infix(name, ".hg"@)
    &&& !has_infix(name, "node_modules"@)
    &&& name != "output"@
    &&& name != "assets"@
    &&& name != "theme"@
}

/// The watched entries of a directory listing, in listing order.
pub open spec fn watched_entries(names: Seq<Seq<char>>) -> Seq<Seq<char>> {
    names.filter(|n: Seq<char>| is_watched_entry(n))
}

/// Whether a top-level directory entry is watched.
pub fn is_watched_name(name: &str) -> (r: bool)
    ensures
        r == is_watched_entry(name@),
{
    !str_contains(name, ".git") && !str_contains(name, ".hg") && !str_contains(name, "node_modules")
        && !str_equal(name, "output") && !str_equal(name, "assets") && !str_equal(name, "theme")
}

/// The entries of the current directory that the watcher watches, in the
/// order in which they were listed.
pub fn watchable_entries(names: &Vec<String>) -> (r: Vec<String>)
    ensures
        r.deep_view() == watched_entries(names.deep_view()),
{
    let ghost pred = |n: Seq<char>| is_watched_entry(n);
    let mut out: Vec<String> = Vec::new();
    for i in 0..names.len()
        invariant
            out.deep_view() == names.deep_view().take(i as int).filter(pred),
            pred == (|n: Seq<char>| is_watched_entry(n)),
    {
        let keep = is_watched_name(names[i].as_str());
        let ghost before = out.deep_view();
        if keep {
            out.push(names[i].clone());
            assert(out.deep_view() =~= before.push(names[i as int]@));
        }
        proof {
            let s = names.deep_view().take(i + 1);
            assert(s.drop_last() =~= names.deep_view().take(i as int));
            assert(s.last() == names[i as int]@);
            reveal(Seq::filter);
        }
    }
    assert(names.deep_view().take(names.len() as int) =~= names.deep_view());
    out
}

/// The output of forester decoded as `String::from_utf8` does: it succeeds
/// exactly on valid UTF-8 and then holds the characters that the bytes encode.
#[verifier::external_body]
fn decode_output(bytes: Vec<u8>) -> (r: Option<String>)
    ensures
        r is Some <==> valid_utf8(bytes@),
        r matches Some(s) ==> s@ == decode_utf8(bytes@),
{
    String::from_utf8(bytes).ok()
}

/// What is broadcast after a build: `reload` when it succeeded, its output
/// otherwise.
pub fn report_build(success: bool, stdout: String) -> (r: BuildReport)
    ensures
        r.succeeded == success,
        r.message@ == (if success {
            "reload"@
        } else {
            stdout@
        }),
{
    if success {
        BuildReport { succeeded: true, message: String::from_str("reload") }
    } else {
        BuildReport { succeeded: false, message: stdout }
    }
}

/// The text of forester's output, which must be UTF-8.
pub fn build_output_text(stdout: Vec<u8>) -> (r: Result<String, WatchError>)
    ensures
        r is Err <==> !valid_utf8(stdout@),
        r matches Err(e) ==> e == WatchError::OutputNotUtf8,
        r matches Ok(s) ==> s@ == decode_utf8(stdout@),
{
    match decode_output(stdout) {
        Some(s) => Ok(s),
        None => Err(WatchError::OutputNotUtf8),
    }
}

/// The report for a build whose standard output is `stdout`; the output must
/// be UTF-8 whether or not the build succeeded.
pub fn report_build_output(success: bool, stdout: Vec<u8>) -> (r: Result<BuildReport, WatchError>)
    ensures
        r is Err <==> !valid_utf8(stdout@),
        r matches Err(e) ==> e == WatchError::OutputNotUtf8,
        r matches Ok(rep) ==> rep.succeeded == success && rep.message@ == (if success {
            "reload"@
        } else {
            decode_utf8(stdout@)
        }),
{
    match build_output_text(stdout) {
        Ok(s) => Ok(report_build(success, s)),
        Err(e) => Err(e),
    }
}

/// The words into which `shlex::split` breaks a line, `None` where the line
/// is not a valid shell word list.
pub uninterp spec fn shlex_words(line: Seq<char>) -> Option<Seq<Seq<char>>>;

/// A character that the shell-word lexer treats specially: blanks, quotes,
/// the backslash and the comment sign.
pub open spec fn is_shell_special(c: char) -> bool {
    c == ' ' || c == '\t' || c == '\n' || c == '"' || c == '\'' || c == '\\' || c == '#'
}

/// A non-empty word without special characters.
pub open spec fn is_plain_word(s: Seq<char>) -> bool {
    s.len() > 0 && forall|i: int| 0 <= i < s.len() ==> !#[trigger] is_shell_special(s[i])
}

/// `shlex::split`: breaks a line into shell words, `None` when a quote is
/// left open or the line ends in a backslash. The contract claims that the
/// result is the named split of the line, that the empty line has no words
/// and that a word without blanks, quotes, backslashes or `#` is its own
/// single word; how other lines are split is not stated here.
#[verifier::external_body]
fn split_words(line: &str) -> (r: Option<Vec<String>>)
    ensures
        r is Some <==> shlex_words(line@) is Some,
        r matches Some(v) ==> shlex_words(line@) == Some(v.deep_view()),
        line@.len() == 0 ==> r is Some && r->0@.len() == 0,
        is_plain_word(line@) ==> r is Some && r->0.deep_view() == seq![line@],
{
    shlex::split(line)
}

/// The forester command for the words of its argument line, refused when the
/// line did not split.
pub fn forester_command(words: Option<Vec<String>>) -> (r: Result<ForesterCommand, WatchError>)
    ensures
        r is Err <==> words is None,
        r matches Err(e) ==> e == WatchError::UnparsableArguments,
        r matches Ok(c) ==> c.program@ == "forester"@ && c.args.deep_view() == words->0.deep_view(),
{
    match words {
        Some(args) => Ok(ForesterCommand { program: String::from_str("forester"), args }),
        None => Err(WatchError::UnparsableArguments),
    }
}

/// The forester command for an argument line, split as a shell would.
pub fn forester_command_for(forester_args: &str) -> (r: Result<ForesterCommand, WatchError>)
    ensures
        r is Err <==> shlex_words(forester_args@) is None,
        r matches Err(e) ==> e == WatchError::UnparsableArguments,
        r matches Ok(c) ==> c.program@ == "forester"@ && shlex_words(forester_args@) == Some(
            c.args.deep_view(),
        ),
        is_plain_word(forester_args@) ==> (r matches Ok(c) && c.args.deep_view() == seq![
            forester_args@,
        ]),
{
    let words = split_words(forester_args);
    forester_command(words)
}

/// What the stand-alone server broadcasts after a successful build.
pub const BUILD_SUCCEEDED_NOTICE: &'static str = "Build Succeeded;";

/// The arguments with which the stand-alone server builds the forest in
/// `dir` on each change: `build --dev --root index <dir>`.
pub fn dev_build_args(dir: &str) -> (r: Vec<String>)
    ensures
        r.deep_view() == seq!["build"@, "--dev"@, "--root"@, "index"@, dir@],
{
    let mut v: Vec<String> = Vec::new();
    v.push(String::from_str("build"));
    v.push(String::from_str("--dev"));
    v.push(String::from_str("--root"));
    v.push(String::from_str("index"));
    v.push(String::from_str(dir));
    assert(v.deep_view() =~= seq!["build"@, "--dev"@, "--root"@, "index"@, dir@]);
    v
}

/// The paths that the stand-alone server watches: the tree directory, then
/// the theme and the assets.
pub fn dev_pathset(dir: &str) -> (r: Vec<String>)
    ensures
        r.deep_view() == seq![dir@, "theme"@, "assets"@],
{
    let mut v: Vec<String> = Vec::new();
    v.push(String::from_str(dir));
    v.push(String::from_str("theme"));
    v.push(String::from_str("assets"));
    assert(v.deep_view() =~= seq![dir@, "theme"@, "assets"@]);
    v
}

/// What the stand-alone server does with a batch of events: whether it
/// stops the watcher, and how many builds it runs (one per event, whether or
/// not it stops).
#[derive(Clone, Copy, Debug, PartialEq, Eq, Structural)]
pub struct DevPlan {
    pub exit: bool,
    pub builds: usize,
}

/// The stand-alone server's plan for a batch of events: it stops when one of
/// them carries the interrupt signal, and it builds once per event.
pub fn dev_plan(events: &Vec<WatchEvent>) -> (r: DevPlan)
    ensures
        r.exit == has_interrupt(events@),
        r.builds == events@.len(),
{
    DevPlan { exit: decide_action(events) == ActionStep::Exit, builds: events.len() }
}

/// What the stand-alone server does once one of its builds has run.
#[derive(Clone, Debug)]
pub enum DevOutcome {
    /// Broadcast this notice to the browsers.
    Broadcast(String),
    /// Log forester's output as an error; nothing is broadcast.
    ReportFailure(String),
}

/// The stand-alone server's outcome of a build: a successful one broadcasts
/// its notice, whatever forester printed; a failed one logs forester's
/// output, which must then be UTF-8.
pub fn dev_build_outcome(success: bool, stdout: Vec<u8>) -> (r: Result<DevOutcome, WatchError>)
    ensures
        success ==> (r matches Ok(DevOutcome::Broadcast(m)) && m@ == BUILD_SUCCEEDED_NOTICE@),
        !success ==> (r is Err <==> !valid_utf8(stdout@)),
        r matches Err(e) ==> e == WatchError::OutputNotUtf8,
        !success ==> (r is Ok ==> (r matches Ok(DevOutcome::ReportFailure(t)) && t@ == decode_utf8(
            stdout@,
        ))),
{
    if success {
        Ok(DevOutcome::Broadcast(String::from_str(BUILD_SUCCEEDED_NOTICE)))
    } else {
        match build_output_text(stdout) {
            Ok(t) => Ok(DevOutcome::ReportFailure(t)),
            Err(e) => Err(e),
        }
    }
}

/// An interrupt decides a batch whatever else it holds.
pub proof fn lemma_interrupt_wins(events: Seq<WatchEvent>, i: int, j: int)
    requires
        0 <= i < events.len(),
        0 <= j < events[i].tags@.len(),
        tag_is_interrupt(events[i].tags@[j]),
    ensures
        action_step(events) == ActionStep::Exit,
{
}

/// Without an interrupt, a batch that names a path asks for a build, and so
/// does the initial untagged event.
pub proof fn lemma_paths_rebuild(events: Seq<WatchEvent>, i: int)
    requires
        !has_interrupt(events),
        0 <= i < events.len(),
        events[i].tags@.len() == 0 || exists|j: int|
            0 <= j < events[i].tags@.len() && #[trigger] tag_is_path(events[i].tags@[j]),
    ensures
        action_step(events) == ActionStep::Rebuild,
{
    if events[i].tags@.len() != 0 {
        let j = choose|j: int| 0 <= j < events[i].tags@.len() && #[trigger] tag_is_path(events[i].tags@[j]);
        assert(tag_is_path(events[i].tags@[j]));
    }
}

/// Choosing the watched entries twice keeps the same entries as once.
pub proof fn lemma_watchable_idempotent(names: Seq<Seq<char>>)
    ensures
        watched_entries(watched_entries(names)) == watched_entries(names),
    decreases names.len(),
{
    reveal(Seq::filter);
    if names.len() > 0 {
        lemma_watchable_idempotent(names.drop_last());
        let a = watched_entries(names.drop_last());
        if is_watched_entry(names.last()) {
            assert(a.push(names.last()).drop_last() =~= a);
        }
    }
}

/// A batch with no interrupt, no path and no untagged event asks for
/// nothing; a batch asks to exit only when it holds an interrupt.
pub proof fn lemma_idle_and_exit(events: Seq<WatchEvent>)
    ensures
        (forall|i: int, j: int|
            0 <= i < events.len() && 0 <= j < events[i].tags@.len() ==> !(events[i].tags@[j] is Path)
                && !(#[trigger] events[i].tags@[j] matches EventTag::Signal(SignalKind::Interrupt)))
            && (forall|i: int| 0 <= i < events.len() ==> #[trigger] events[i].tags@.len() > 0)
            ==> action_step(events) == ActionStep::Idle,
        action_step(events) == ActionStep::Exit ==> exists|i: int, j: int|
            0 <= i < events.len() && 0 <= j < events[i].tags@.len()
                && #[trigger] events[i].tags@[j] matches EventTag::Signal(SignalKind::Interrupt),
{
    if action_step(events) == ActionStep::Exit {
        let (i, j) = choose|i: int, j: int|
            0 <= i < events.len() && 0 <= j < events[i].tags@.len() && #[trigger] tag_is_interrupt(
                events[i].tags@[j],
            );
        assert(events[i].tags@[j] matches EventTag::Signal(SignalKind::Interrupt));
    }
    if (forall|i: int, j: int|
        0 <= i < events.len() && 0 <= j < events[i].tags@.len() ==> !(events[i].tags@[j] is Path)
            && !(#[trigger] events[i].tags@[j] matches EventTag::Signal(SignalKind::Interrupt)))
        && (forall|i: int| 0 <= i < events.len() ==> #[trigger] events[i].tags@.len() > 0) {
        assert(!has_interrupt(events));
        assert(!has_path(events));
        assert(!has_untagged(events));
    }
}

/// Every entry that the watcher keeps is a watched entry of the listing, and
/// every watched entry of the listing is kept.
pub proof fn lemma_watchable_exact(names: Seq<Seq<char>>)
    ensures
        forall|i: int|
            0 <= i < watched_entries(names).len() ==> is_watched_entry(
                #[trigger] watched_entries(names)[i],
            ),
        forall|i: int|
            0 <= i < names.len() && is_watched_entry(names[i]) ==> #[trigger] watched_entries(
                names,
            ).contains(names[i]),
        watched_entries(names).len() <= names.len(),
{
    broadcast use vstd::seq_lib::group_filter_ensures;

    assert forall|i: int|
        0 <= i < watched_entries(names).len() implies is_watched_entry(
            #[trigger] watched_entries(names)[i],
        ) by {
        names.lemma_filter_pred(|n: Seq<char>| is_watched_entry(n), i);
    }
    assert forall|i: int|
        0 <= i < names.len() && is_watched_entry(names[i]) implies #[trigger] watched_entries(
            names,
        ).contains(names[i]) by {
        names.lemma_filter_contains(|n: Seq<char>| is_watched_entry(n), i);
    }
    names.lemma_filter_len(|n: Seq<char>| is_watched_entry(n));
}

} // verus!
