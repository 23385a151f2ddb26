//! The decisions of the interface's main loop: which events end it, which go
//! to the root component, and what follows the component's answer.
use vstd::prelude::*;
use crate::events::{Event, KeyCode, Outcome, TermEvent, is_key};

verus! {

/// What the main loop does with the next event.
#[derive(Clone, Copy, Debug, PartialEq, Eq, Structural)]
pub enum LoopStep {
    /// Leave the loop.
    Stop,
    /// Hand the tick to the root component and go on whatever it answers.
    DeliverTick,
    /// Hand the event to the root component and look at its answer.
    Deliver,
}

/// `e` is one of the keys that end the loop before the root component sees
/// them: escape, `?` and `q`, with any modifiers.
pub open spec fn is_exit_key(e: Event) -> bool {
    is_key(e, KeyCode::Esc) || is_key(e, KeyCode::Char('?')) || is_key(e, KeyCode::Char('q'))
}

/// The step for the next event, `None` when the event channel is closed.
pub open spec fn loop_step(next: Option<Event>) -> LoopStep {
    match next {
        None => LoopStep::Stop,
        Some(Event::Quit) => LoopStep::Stop,
        Some(Event::Tick) => LoopStep::DeliverTick,
        Some(e) => if is_exit_key(e) {
            LoopStep::Stop
        } else {
            LoopStep::Deliver
        },
    }
}

/// Whether the loop ends after the root component answered `outcome` to `e`:
/// only when it ignored a `q` key.
pub open spec fn stops_after(e: Event, outcome: Outcome) -> bool {
    outcome != Outcome::Handled && is_key(e, KeyCode::Char('q'))
}

/// The step for the next event of the loop.
pub fn next_step(next: &Option<Event>) -> (r: LoopStep)
    ensures
        r == loop_step(*next),
{
    match next {
        None => LoopStep::Stop,
        Some(Event::Quit) => LoopStep::Stop,
        Some(Event::Tick) => LoopStep::DeliverTick,
        Some(event) => {
            if let Event::Crossterm(TermEvent::Key(key)) = event {
                match key.code {
                    KeyCode::Esc => {
                        return LoopStep::Stop;
                    },
                    KeyCode::Char(c) => {
                        if c == '?' || c == 'q' {
                            return LoopStep::Stop;
                        }
                    },
                    _ => {},
                }
            }
            LoopStep::Deliver
        },
    }
}

/// Whether the loop ends once the root component has answered `outcome` to
/// the delivered `event`.
pub fn stop_after_delivery(event: &Event, outcome: Outcome) -> (r: bool)
    ensures
        r == stops_after(*event, outcome),
{
    if outcome == Outcome::Handled {
        return false;
    }
    if let Event::Crossterm(TermEvent::Key(key)) = event {
        if key.code == KeyCode::Char('q') {
            return true;
        }
    }
    false
}

/// The exit keys never reach the root component, so whatever it answers to an
/// event that it was handed, the loop goes on.
pub proof fn lemma_delivered_events_never_stop(e: Event, outcome: Outcome)
    requires
        loop_step(Some(e)) == LoopStep::Deliver,
    ensures
        !stops_after(e, outcome),
        !is_exit_key(e),
{
}

/// Exactly the exit keys end the loop among terminal events: a key press of
/// escape, `?` or `q` (with any modifiers) stops it, and every other terminal
/// event, any other key press included, goes to the root component. A quit
/// request and a closed channel stop it; a tick goes to the root component.
pub proof fn lemma_only_exit_keys_stop(e: Event)
    ensures
        loop_step(None) == LoopStep::Stop,
        loop_step(Some(Event::Quit)) == LoopStep::Stop,
        loop_step(Some(Event::Tick)) == LoopStep::DeliverTick,
        (e matches Event::Crossterm(_)) ==> (loop_step(Some(e)) == LoopStep::Stop <==> (e matches Event::Crossterm(
            TermEvent::Key(k),
        ) && (k.code == KeyCode::Esc || k.code == KeyCode::Char('?') || k.code == KeyCode::Char(
            'q',
        )))),
        (e matches Event::Crossterm(_)) ==> (loop_step(Some(e)) == LoopStep::Stop || loop_step(
            Some(e),
        ) == LoopStep::Deliver),
{
}

/// Once the root component has handled an event the loop always goes on; it
/// ends after delivery only when an ignored event is a `q` key press.
pub proof fn lemma_stop_after_delivery_cases(e: Event, outcome: Outcome)
    ensures
        outcome == Outcome::Handled ==> !stops_after(e, outcome),
        stops_after(e, outcome) ==> (e matches Event::Crossterm(TermEvent::Key(k)) && k.code
            == KeyCode::Char('q')),
        (e is Quit || e is Tick) ==> !stops_after(e, outcome),
{
}

/// A quit request, a closed channel and each exit key end the loop at once.
pub proof fn lemma_stop_events(e: Event)
    ensures
        loop_step(None) == LoopStep::Stop,
        loop_step(Some(Event::Quit)) == LoopStep::Stop,
        is_exit_key(e) ==> loop_step(Some(e)) == LoopStep::Stop,
{
}

} // verus!
