//! Decoded input events, as the editor's state machine reads them.
//!
//! The terminal layer decodes raw input and hands over one `InputEvent` at a
//! time. Everything here is a plain value: the state machine never looks at
//! the terminal itself.

use vstd::prelude::*;

verus! {

/// The key that was struck, as far as the editor tells keys apart.
#[derive(Clone, Copy, Debug, PartialEq, Eq, Structural)]
pub enum KeyCode {
    Left,
    Right,
    Up,
    Down,
    Backspace,
    Enter,
    /// A character key, with the character it produces.
    Char(char),
    /// Any key the editor has no binding for.
    Other,
}

/// The modifier keys held down while a key was struck.
#[derive(Clone, Copy, Debug, PartialEq, Eq, Structural)]
pub struct Modifiers {
    pub shift: bool,
    pub control: bool,
    pub alt: bool,
    pub logo: bool,
    pub hyper: bool,
    pub meta: bool,
}

/// Whether a key went down, is being held, or came up.
#[derive(Clone, Copy, Debug, PartialEq, Eq, Structural)]
pub enum KeyKind {
    Press,
    Repeat,
    Release,
}

/// One key event: which key, with which modifiers, and what happened to it.
#[derive(Clone, Copy, Debug, PartialEq, Eq, Structural)]
pub struct KeyEvent {
    pub code: KeyCode,
    pub modifiers: Modifiers,
    pub kind: KeyKind,
}

/// One event from the input source.
#[derive(Clone, Copy, Debug, PartialEq, Eq, Structural)]
pub enum InputEvent {
    Key(KeyEvent),
    /// Anything that is not a key event (a resize, the mouse, focus).
    Other,
}

/// What the caller of the state machine has to do after a step.
#[derive(Clone, Copy, Debug, PartialEq, Eq, Structural)]
pub enum Action {
    /// Nothing: draw the next frame and wait for the next event.
    Continue,
    /// Write the serialized document to the file, then report the outcome.
    Save,
    /// Leave the event loop.
    Quit,
}

impl Modifiers {
    /// No modifier key is held.
    pub open spec fn none(self) -> bool {
        !self.shift && !self.control && !self.alt && !self.logo && !self.hyper && !self.meta
    }

    /// Control is held, and no other modifier key.
    pub open spec fn control_only(self) -> bool {
        !self.shift && self.control && !self.alt && !self.logo && !self.hyper && !self.meta
    }

    /// The value for a key struck with no modifier held.
    pub fn plain() -> (m: Modifiers)
        ensures
            m.none(),
            m == (Modifiers {
                shift: false,
                control: false,
                alt: false,
                logo: false,
                hyper: false,
                meta: false,
            }),
    {
        Modifiers { shift: false, control: false, alt: false, logo: false, hyper: false, meta: false }
    }

    /// The value for a key struck with Control alone held.
    pub fn ctrl() -> (m: Modifiers)
        ensures
            m.control_only(),
            m == (Modifiers {
                shift: false,
                control: true,
                alt: false,
                logo: false,
                hyper: false,
                meta: false,
            }),
    {
        Modifiers { shift: false, control: true, alt: false, logo: false, hyper: false, meta: false }
    }

    /// Tells whether no modifier key is held.
    pub fn is_none(&self) -> (b: bool)
        ensures
            b == self.none(),
    {
        !self.shift && !self.control && !self.alt && !self.logo && !self.hyper && !self.meta
    }

    /// Tells whether Control is held and nothing else.
    pub fn is_control_only(&self) -> (b: bool)
        ensures
            b == self.control_only(),
    {
        !self.shift && self.control && !self.alt && !self.logo && !self.hyper && !self.meta
    }
}

impl KeyEvent {
    /// The event of pressing `code` with `modifiers` held.
    pub fn press(code: KeyCode, modifiers: Modifiers) -> (e: KeyEvent)
        ensures
            e == (KeyEvent { code, modifiers, kind: KeyKind::Press }),
    {
        KeyEvent { code, modifiers, kind: KeyKind::Press }
    }
}

impl InputEvent {
    /// The key of this event, if it is a key press: the only events that the
    /// editor acts on.
    pub open spec fn pressed(self) -> Option<KeyEvent> {
        match self {
            InputEvent::Key(key) => if key.kind == KeyKind::Press {
                Some(key)
            } else {
                None
            },
            InputEvent::Other => None,
        }
    }

    /// The code of the key of this event, if it is a key press.
    pub open spec fn pressed_code(self) -> Option<KeyCode> {
        match self.pressed() {
            Some(key) => Some(key.code),
            None => None,
        }
    }

    /// The press of the character key `c` with Control alone held.
    pub open spec fn ctrl(c: char) -> InputEvent {
        InputEvent::Key(
            KeyEvent {
                code: KeyCode::Char(c),
                modifiers: Modifiers {
                    shift: false,
                    control: true,
                    alt: false,
                    logo: false,
                    hyper: false,
                    meta: false,
                },
                kind: KeyKind::Press,
            },
        )
    }

    /// The pressed key of this event, or `None` for a release, a repeat and
    /// for anything that is no key event.
    pub fn pressed_key(&self) -> (key: Option<KeyEvent>)
        ensures
            key == self.pressed(),
    {
        match self {
            InputEvent::Key(key) => match key.kind {
                KeyKind::Press => Some(*key),
                _ => None,
            },
            InputEvent::Other => None,
        }
    }
}

} // verus!
