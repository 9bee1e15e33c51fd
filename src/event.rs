use vstd::prelude::*;

verus! {

/// A key, as decoded from the input stream. `Char` holds a Unicode scalar
/// value (or the code of an ASCII key combined with a modifier).
#[derive(Clone, Copy, Debug, PartialEq, Eq, Structural)]
pub enum KeyCode {
    Char(u32),
    Enter,
    Tab,
    BackTab,
    Backspace,
    Esc,
    Up,
    Down,
    Left,
    Right,
    Home,
    End,
    Insert,
    Delete,
    PageUp,
    PageDown,
    F(u8),
}

/// A key press with its modifiers.
#[derive(Clone, Copy, Debug, PartialEq, Eq, Structural)]
pub struct KeyEvent {
    pub code: KeyCode,
    pub shift: bool,
    pub ctrl: bool,
    pub alt: bool,
}

/// A mouse report (SGR encoding): the button code, the zero-based cell,
/// and whether it was a press (`true`) or a release.
#[derive(Clone, Copy, Debug, PartialEq, Eq, Structural)]
pub struct MouseEvent {
    pub button: u16,
    pub column: u16,
    pub row: u16,
    pub pressed: bool,
}

/// An event of the input pipeline, over the type `T` that holds pasted text.
#[derive(Clone, Debug, PartialEq, Eq)]
pub enum EventOf<T> {
    Key(KeyEvent),
    Mouse(MouseEvent),
    FocusGained,
    FocusLost,
    /// New size of the terminal: columns, rows.
    Resize(u16, u16),
    /// Reported cursor position: zero-based column, row.
    CursorPosition(u16, u16),
    /// Bracketed paste: the bytes between the start and end markers.
    Paste(T),
}

/// An event as the library hands it out.
pub type InternalEvent = EventOf<Vec<u8>>;

/// The mathematical value of an event.
pub type EventModel = EventOf<Seq<u8>>;

impl View for EventOf<Vec<u8>> {
    type V = EventModel;

    open spec fn view(&self) -> EventModel {
        match self {
            EventOf::Key(k) => EventOf::Key(*k),
            EventOf::Mouse(m) => EventOf::Mouse(*m),
            EventOf::FocusGained => EventOf::FocusGained,
            EventOf::FocusLost => EventOf::FocusLost,
            EventOf::Resize(c, r) => EventOf::Resize(*c, *r),
            EventOf::CursorPosition(c, r) => EventOf::CursorPosition(*c, *r),
            EventOf::Paste(t) => EventOf::Paste(t@),
        }
    }
}

/// A plain key press without modifiers.
pub open spec fn key_spec(code: KeyCode) -> EventModel {
    EventOf::Key(KeyEvent { code, shift: false, ctrl: false, alt: false })
}

pub fn key(code: KeyCode) -> (r: InternalEvent)
    ensures
        r@ == key_spec(code),
{
    EventOf::Key(KeyEvent { code, shift: false, ctrl: false, alt: false })
}

} // verus!
