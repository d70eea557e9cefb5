//! Input events as plain values.
//!
//! The terminal is read outside this library; what it delivers is handed in
//! as the values below.

use vstd::prelude::*;

verus! {

/// The key of a key press.
#[derive(Debug, Clone, Copy, PartialEq, Eq, Structural)]
pub enum KeyCode {
    Char(char),
    Up,
    Down,
    PageUp,
    PageDown,
    Enter,
    Esc,
    Tab,
    BackTab,
    Backspace,
    F(u8),
    Other,
}

/// A key event.
#[derive(Debug, Clone, Copy, PartialEq, Eq, Structural)]
pub struct KeyEvent {
    pub code: KeyCode,
}

/// What the mouse did.
#[derive(Debug, Clone, Copy, PartialEq, Eq, Structural)]
pub enum MouseEventKind {
    ScrollUp,
    ScrollDown,
    Other,
}

/// A mouse event.
#[derive(Debug, Clone, Copy, PartialEq, Eq, Structural)]
pub struct MouseEvent {
    pub kind: MouseEventKind,
}

/// An event that the dashboard reacts to.
#[derive(Debug, Clone, Copy, PartialEq, Eq, Structural)]
pub enum Event {
    Key(KeyEvent),
    Mouse(MouseEvent),
    Resize(u16, u16),
}

/// What the terminal delivered, before any filtering. A key event carries
/// whether it is a press (as opposed to a release or a repeat).
#[derive(Debug, Clone, Copy, PartialEq, Eq, Structural)]
pub enum RawEvent {
    Key { code: KeyCode, is_press: bool },
    Mouse(MouseEventKind),
    Resize(u16, u16),
    Other,
}

/// The event that `raw` stands for, if the dashboard reacts to it.
pub open spec fn accepted_event(raw: Option<RawEvent>) -> Option<Event> {
    match raw {
        Some(RawEvent::Key { code, is_press }) => if is_press {
            Some(Event::Key(KeyEvent { code }))
        } else {
            None
        },
        Some(RawEvent::Mouse(kind)) => Some(Event::Mouse(MouseEvent { kind })),
        Some(RawEvent::Resize(width, height)) => Some(Event::Resize(width, height)),
        Some(RawEvent::Other) => None,
        None => None,
    }
}

/// Filters what one poll of the terminal delivered: key presses, mouse
/// events and resizes pass; key releases and repeats, every other event,
/// and a poll that timed out (`None`) give `None`.
pub fn poll_events(raw: Option<RawEvent>) -> (event: Option<Event>)
    ensures
        event == accepted_event(raw),
{
    match raw {
        Some(RawEvent::Key { code, is_press }) => {
            if is_press {
                Some(Event::Key(KeyEvent { code }))
            } else {
                None
            }
        },
        Some(RawEvent::Mouse(kind)) => Some(Event::Mouse(MouseEvent { kind })),
        Some(RawEvent::Resize(width, height)) => Some(Event::Resize(width, height)),
        Some(RawEvent::Other) => None,
        None => None,
    }
}

} // verus!
