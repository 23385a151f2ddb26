//! The home screen of the terminal interface: a title, a status line and a
//! list whose selection moves with `j` and `k`.
use vstd::prelude::*;
use crate::events::{Event, KeyCode, Outcome, TermEvent, NO_MODIFIERS, is_plain_char};

verus! {

/// `miette::Report`, the error type of the interface's fallible steps.
#[verifier::external_type_specification]
#[verifier::external_body]
pub struct ExReport(miette::Report);

/// The home screen. The selection is the list state's selected row.
pub struct Home {
    title: String,
    status: String,
    selected: Option<usize>,
}

/// The selection after moving down: the next row, or the first row when
/// nothing was selected.
pub open spec fn selection_down(sel: Option<usize>) -> Option<usize> {
    match sel {
        Some(s) => Some((s + 1) as usize),
        None => Some(0usize),
    }
}

/// The selection after moving up: the same row, or the first row when
/// nothing was selected.
pub open spec fn selection_up(sel: Option<usize>) -> Option<usize> {
    match sel {
        Some(s) => Some(s),
        None => Some(0usize),
    }
}

/// The outcome of `Home::handle_event` on `e`: a terminal event is consumed
/// unless it is a key press other than a plain `j` or `k`; any other event is
/// ignored.
pub open spec fn home_outcome(e: Event) -> Outcome {
    match e {
        Event::Crossterm(TermEvent::Key(_)) => if is_plain_char(e, 'j') || is_plain_char(e, 'k') {
            Outcome::Handled
        } else {
            Outcome::Ignored
        },
        Event::Crossterm(_) => Outcome::Handled,
        _ => Outcome::Ignored,
    }
}

/// The selection after `Home::handle_event` on `e`.
pub open spec fn home_selection(sel: Option<usize>, e: Event) -> Option<usize> {
    if is_plain_char(e, 'j') {
        selection_down(sel)
    } else if is_plain_char(e, 'k') {
        selection_up(sel)
    } else {
        sel
    }
}

/// Moving down from the last representable row would overflow.
pub open spec fn home_overflows(sel: Option<usize>, e: Event) -> bool {
    is_plain_char(e, 'j') && sel == Some(usize::MAX)
}

impl Home {
    /// The title shown for the screen.
    pub closed spec fn title_text(&self) -> Seq<char> {
        self.title@
    }

    /// The status line shown for the screen.
    pub closed spec fn status_text(&self) -> Seq<char> {
        self.status@
    }

    /// The selected row of the list.
    pub closed spec fn selection(&self) -> Option<usize> {
        self.selected
    }

    /// A home screen with an empty title and status and no selection.
    pub fn new() -> (r: Self)
        ensures
            r.title_text() == Seq::<char>::empty(),
            r.status_text() == Seq::<char>::empty(),
            r.selection() == None::<usize>,
    {
        Home { title: String::new(), status: String::new(), selected: None }
    }

    /// Starts the screen: it shows that no one is logged in.
    pub fn start(&mut self) -> (r: Result<(), miette::Report>)
        ensures
            r is Ok,
            final(self).title_text() == "Not logged in"@,
            final(self).status_text() == old(self).status_text(),
            final(self).selection() == old(self).selection(),
    {
        self.title = String::from_str("Not logged in");
        Ok(())
    }

    /// Reacts to an event: a plain `j` moves the selection down, a plain `k`
    /// moves it up.
    pub fn handle_event(&mut self, event: &Event) -> (r: Outcome)
        requires
            !home_overflows(old(self).selection(), *event),
        ensures
            r == home_outcome(*event),
            final(self).selection() == home_selection(old(self).selection(), *event),
            final(self).title_text() == old(self).title_text(),
            final(self).status_text() == old(self).status_text(),
    {
        match event {
            Event::Crossterm(te) => {
                if let TermEvent::Key(key) = te {
                    if key.modifiers == NO_MODIFIERS && key.code == KeyCode::Char('j') {
                        let _ = self.scroll_down();
                    } else if key.modifiers == NO_MODIFIERS && key.code == KeyCode::Char('k') {
                        let _ = self.scroll_up();
                    } else {
                        return Outcome::Ignored;
                    }
                }
                Outcome::Handled
            },
            _ => Outcome::Ignored,
        }
    }

    /// Selects the next row, or the first when nothing is selected.
    fn scroll_down(&mut self) -> (r: Result<(), miette::Report>)
        requires
            old(self).selection() != Some(usize::MAX),
        ensures
            r is Ok,
            final(self).selection() == selection_down(old(self).selection()),
            final(self).title_text() == old(self).title_text(),
            final(self).status_text() == old(self).status_text(),
    {
        let index = match self.selected {
            Some(s) => s + 1,
            None => 0,
        };
        self.selected = Some(index);
        Ok(())
    }

    /// Keeps the selected row, or selects the first when nothing is selected.
    fn scroll_up(&mut self) -> (r: Result<(), miette::Report>)
        ensures
            r is Ok,
            final(self).selection() == selection_up(old(self).selection()),
            final(self).title_text() == old(self).title_text(),
            final(self).status_text() == old(self).status_text(),
    {
        let index = match self.selected {
            Some(s) => s,
            None => 0,
        };
        self.selected = Some(index);
        Ok(())
    }

    /// The title shown for the screen.
    pub fn title(&self) -> (r: &str)
        ensures
            r@ == self.title_text(),
    {
        self.title.as_str()
    }

    /// The status line shown for the screen.
    pub fn status(&self) -> (r: &str)
        ensures
            r@ == self.status_text(),
    {
        self.status.as_str()
    }

    /// The selected row of the list, as the list widget's state holds it.
    pub fn selected(&self) -> (r: Option<usize>)
        ensures
            r == self.selection(),
    {
        self.selected
    }
}

/// Only a plain `j` or `k` key press moves the selection: every other event,
/// ticks and quit requests included, leaves it as it was. Ticks and quit
/// requests are ignored; a terminal event other than a key press is consumed.
pub proof fn lemma_other_events_keep_selection(sel: Option<usize>, e: Event)
    ensures
        !(e matches Event::Crossterm(TermEvent::Key(k)) && k.modifiers == 0 && (k.code
            == KeyCode::Char('j') || k.code == KeyCode::Char('k'))) ==> home_selection(sel, e)
            == sel,
        (e is Tick || e is Quit) ==> home_selection(sel, e) == sel && home_outcome(e)
            == Outcome::Ignored,
        (e matches Event::Crossterm(TermEvent::Key(k)) && k.modifiers == 0 && k.code
            == KeyCode::Char('k')) ==> home_selection(sel, e) == (match sel {
            Some(s) => Some(s),
            None => Some(0usize),
        }),
        (e matches Event::Crossterm(TermEvent::Key(k)) && k.modifiers == 0 && k.code
            == KeyCode::Char('j') && sel is Some && sel->0 < usize::MAX) ==> home_selection(sel, e)
            == Some((sel->0 + 1) as usize),
        (e matches Event::Crossterm(TermEvent::Key(k)) && k.modifiers == 0 && k.code
            == KeyCode::Char('j') && sel is None) ==> home_selection(sel, e) == Some(0usize),
        (e matches Event::Crossterm(TermEvent::Other)) ==> home_outcome(e) == Outcome::Handled,
{
}

/// A plain `j` or `k` key press is handled; any other key press is ignored,
/// and so are ticks and quit requests.
pub proof fn lemma_home_outcome_cases(e: Event)
    ensures
        (e matches Event::Crossterm(TermEvent::Key(k)) && k.modifiers == 0 && (k.code
            == KeyCode::Char('j') || k.code == KeyCode::Char('k'))) ==> home_outcome(e)
            == Outcome::Handled,
        (e matches Event::Crossterm(TermEvent::Key(k)) && !(k.modifiers == 0 && (k.code
            == KeyCode::Char('j') || k.code == KeyCode::Char('k')))) ==> home_outcome(e)
            == Outcome::Ignored,
{
}

/// Moving up is idempotent: a second `k` changes nothing.
pub proof fn lemma_scroll_up_idempotent(sel: Option<usize>)
    ensures
        selection_up(selection_up(sel)) == selection_up(sel),
{
}

/// After a plain `j` or `k` the list always has a selection, and a `j`
/// selects the row after the one selected before.
pub proof fn lemma_scroll_selects(sel: Option<usize>, e: Event)
    requires
        is_plain_char(e, 'j') || is_plain_char(e, 'k'),
        !home_overflows(sel, e),
    ensures
        home_selection(sel, e) is Some,
        is_plain_char(e, 'j') && sel is Some ==> home_selection(sel, e) == Some(
            (sel->0 + 1) as usize,
        ),
        home_outcome(e) == Outcome::Handled,
{
}

} // verus!
