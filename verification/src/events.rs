//! The events that reach the terminal interface, as plain values: what the
//! interface reads of a terminal key press, and the outcome of handling one.
use vstd::prelude::*;

verus! {

/// Modifier bit set with no modifier held (the terminal's `KeyModifiers::NONE`).
pub const NO_MODIFIERS: u8 = 0;

/// The key of a key press, as far as the interface tells keys apart.
#[derive(Clone, Copy, Debug, PartialEq, Eq, Structural)]
pub enum KeyCode {
    /// A character key.
    Char(char),
    /// The escape key.
    Esc,
    /// Any other key.
    Other,
}

/// A key press: its key and the bit set of modifiers held with it, laid out
/// as the terminal lays them out (shift, control, alt, super, hyper, meta
/// from the lowest bit up).
#[derive(Clone, Copy, Debug, PartialEq, Eq, Structural)]
pub struct KeyPress {
    pub code: KeyCode,
    pub modifiers: u8,
}

/// An event of the terminal.
#[derive(Clone, Copy, Debug, PartialEq, Eq, Structural)]
pub enum TermEvent {
    Key(KeyPress),
    /// Mouse, resize, focus and paste events.
    Other,
}

/// An event of the interface's event loop.
#[derive(Clone, Copy, Debug, PartialEq, Eq, Structural)]
pub enum Event {
    /// The interface is asked to shut down.
    Quit,
    /// A periodic tick.
    Tick,
    /// An event of the terminal.
    Crossterm(TermEvent),
}

/// Whether a component consumed an event.
#[derive(Clone, Copy, Debug, PartialEq, Eq, Structural)]
pub enum Outcome {
    Handled,
    Ignored,
}

/// `e` is a key press of the character `c` with no modifier held.
pub open spec fn is_plain_char(e: Event, c: char) -> bool {
    e matches Event::Crossterm(TermEvent::Key(k)) && k.modifiers == NO_MODIFIERS && k.code
        == KeyCode::Char(c)
}

/// `e` is a key press of `code`, whatever modifiers are held.
pub open spec fn is_key(e: Event, code: KeyCode) -> bool {
    e matches Event::Crossterm(TermEvent::Key(k)) && k.code == code
}

} // verus!
