//! The terminal front end of the single-window server: its state, its key
//! handling and the text it shows.
use vstd::prelude::*;
use crate::events::KeyCode;
use crate::text::{decimal, push_decimal};

verus! {

/// The screen that the front end shows.
#[derive(Clone, Copy, Debug, PartialEq, Eq, Structural)]
pub enum CurrentScreen {
    Init,
    Watching,
    CreatingNewTree,
}

/// The front end: the port of its server, the errors it collected, the tree
/// directory, the root tree and the current screen.
pub struct App {
    port: u16,
    errors: Vec<String>,
    tree_dir: String,
    root: String,
    current_screen: CurrentScreen,
}

impl App {
    pub closed spec fn port_spec(&self) -> u16 {
        self.port
    }

    pub closed spec fn errors_spec(&self) -> Seq<Seq<char>> {
        self.errors.deep_view()
    }

    pub closed spec fn tree_dir_spec(&self) -> Seq<char> {
        self.tree_dir@
    }

    pub closed spec fn root_spec(&self) -> Seq<char> {
        self.root@
    }

    pub closed spec fn screen_spec(&self) -> CurrentScreen {
        self.current_screen
    }

    /// A front end on the initial screen, with no errors.
    pub fn new(port: u16, root: String, dir: String) -> (r: App)
        ensures
            r.port_spec() == port,
            r.root_spec() == root@,
            r.tree_dir_spec() == dir@,
            r.errors_spec() == Seq::<Seq<char>>::empty(),
            r.screen_spec() == CurrentScreen::Init,
    {
        let app = App {
            port: port,
            root: root,
            errors: Vec::new(),
            tree_dir: dir,
            current_screen: CurrentScreen::Init,
        };
        assert(app.errors.deep_view() =~= Seq::<Seq<char>>::empty());
        app
    }

    /// The port of the front end's server.
    pub fn port(&self) -> (r: u16)
        ensures
            r == self.port_spec(),
    {
        self.port
    }

    /// The directory that holds the trees.
    pub fn tree_dir(&self) -> (r: &str)
        ensures
            r@ == self.tree_dir_spec(),
    {
        self.tree_dir.as_str()
    }

    /// The line at the top of the screen, naming the server's address.
    pub fn status_line(&self) -> (r: String)
        ensures
            r@ == "Server running at localhost:"@ + decimal(self.port_spec() as nat),
    {
        let mut s = String::from_str("Server running at localhost:");
        push_decimal(&mut s, self.port as u64);
        s
    }
}

/// The kind of a key event.
#[derive(Clone, Copy, Debug, PartialEq, Eq, Structural)]
pub enum KeyKind {
    Press,
    Repeat,
    Release,
}

/// The front end's loop state after a key event.
#[derive(Clone, Copy, Debug, PartialEq, Eq, Structural)]
pub struct KeyStep {
    pub counter: i32,
    pub quit: bool,
}

/// The front end's reaction to a key: on a press, `j` counts up, `k` counts
/// down, `n` and `q` leave the loop; nothing else changes anything.
pub open spec fn key_step(counter: i32, code: KeyCode, kind: KeyKind) -> KeyStep {
    if kind != KeyKind::Press {
        KeyStep { counter, quit: false }
    } else if code == KeyCode::Char('j') {
        KeyStep { counter: (counter + 1) as i32, quit: false }
    } else if code == KeyCode::Char('k') {
        KeyStep { counter: (counter - 1) as i32, quit: false }
    } else if code == KeyCode::Char('n') || code == KeyCode::Char('q') {
        KeyStep { counter, quit: true }
    } else {
        KeyStep { counter, quit: false }
    }
}

/// The counter would leave the range of `i32`.
pub open spec fn key_overflows(counter: i32, code: KeyCode, kind: KeyKind) -> bool {
    kind == KeyKind::Press && ((code == KeyCode::Char('j') && counter == i32::MAX) || (code
        == KeyCode::Char('k') && counter == i32::MIN))
}

/// Handles a key event of the front end's loop.
pub fn handle_key(counter: i32, code: KeyCode, kind: KeyKind) -> (r: KeyStep)
    requires
        !key_overflows(counter, code, kind),
    ensures
        r == key_step(counter, code, kind),
{
    if kind == KeyKind::Press {
        match code {
            KeyCode::Char('j') => KeyStep { counter: counter + 1, quit: false },
            KeyCode::Char('k') => KeyStep { counter: counter - 1, quit: false },
            KeyCode::Char('n') => KeyStep { counter, quit: true },
            KeyCode::Char('q') => KeyStep { counter, quit: true },
            _ => KeyStep { counter, quit: false },
        }
    } else {
        KeyStep { counter, quit: false }
    }
}

/// Only a press of `n` or `q` leaves the loop; a press of `j` adds one to the
/// counter and a press of `k` takes one off; every other key, and every
/// repeat or release, leaves the counter as it was.
pub proof fn lemma_key_step_effects(counter: i32, code: KeyCode, kind: KeyKind)
    requires
        !key_overflows(counter, code, kind),
    ensures
        key_step(counter, code, kind).quit <==> (kind == KeyKind::Press && (code == KeyCode::Char(
            'n',
        ) || code == KeyCode::Char('q'))),
        kind == KeyKind::Press && code == KeyCode::Char('j') ==> key_step(counter, code, kind).counter
            == counter + 1,
        kind == KeyKind::Press && code == KeyCode::Char('k') ==> key_step(counter, code, kind).counter
            == counter - 1,
        !(kind == KeyKind::Press && (code == KeyCode::Char('j') || code == KeyCode::Char('k')))
            ==> key_step(counter, code, kind).counter == counter,
{
}

/// A key followed by the opposite key leaves the counter where it was.
pub proof fn lemma_j_then_k(counter: i32)
    requires
        counter < i32::MAX,
    ensures
        key_step(
            key_step(counter, KeyCode::Char('j'), KeyKind::Press).counter,
            KeyCode::Char('k'),
            KeyKind::Press,
        ).counter == counter,
{
}

/// An entry of the help line: a key and what it does.
#[derive(Clone, Debug)]
pub struct HelpItem {
    pub key: char,
    pub help: String,
}

/// `char::to_string`: the one-character string of `c`.
#[verifier::external_body]
fn char_string(c: char) -> (r: String)
    ensures
        r@ == seq![c],
{
    c.to_string()
}

impl HelpItem {
    /// A help entry for `key`.
    pub fn new(key: char, help: String) -> (r: HelpItem)
        ensures
            r.key == key,
            r.help@ == help@,
    {
        HelpItem { key, help }
    }

    /// The key, as the help line shows it.
    pub fn key_text(&self) -> (r: String)
        ensures
            r@ == seq![self.key],
    {
        char_string(self.key)
    }

    /// The entry as the help list shows it: the key, a space, the help.
    pub fn entry_text(&self) -> (r: String)
        ensures
            r@ == seq![self.key] + " "@ + self.help@,
    {
        let mut s = char_string(self.key);
        s.append(" ");
        s.append(self.help.as_str());
        s
    }

    /// The entry split as a styled line shows it: the key, then `to` and the
    /// help.
    pub fn render_parts(&self) -> (r: (String, String))
        ensures
            r.0@ == seq![self.key],
            r.1@ == "to "@ + self.help@,
    {
        let mut rest = String::from_str("to ");
        rest.append(self.help.as_str());
        (char_string(self.key), rest)
    }
}

/// The text that the help list shows for a help entry.
pub fn draw_help_item(help: &HelpItem) -> (r: String)
    ensures
        r@ == seq![help.key],
{
    help.key_text()
}

/// The entries of the front end's help list.
pub fn default_help_items() -> (r: Vec<HelpItem>)
    ensures
        r@.len() == 3,
        r@[0].key == 'q' && r@[0].help@ == "to quit"@,
        r@[1].key == 'n' && r@[1].help@ == "to create a new tree"@,
        r@[2].key == 'h' && r@[2].help@ == "for help"@,
{
    let mut v: Vec<HelpItem> = Vec::new();
    v.push(HelpItem::new('q', String::from_str("to quit")));
    v.push(HelpItem::new('n', String::from_str("to create a new tree")));
    v.push(HelpItem::new('h', String::from_str("for help")));
    v
}

} // verus!
