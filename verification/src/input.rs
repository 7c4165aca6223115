//! Terminal input events and screen areas as plain values.

use vstd::prelude::*;

verus! {

/// One key on the keyboard.
#[derive(Clone, Copy, Debug, PartialEq, Eq, Structural)]
pub enum KeyCode {
    Backspace,
    Enter,
    Left,
    Right,
    Up,
    Down,
    Home,
    End,
    PageUp,
    PageDown,
    Tab,
    BackTab,
    Insert,
    Delete,
    Esc,
    F(u8),
    Char(char),
    /// A key that Stackhand never binds.
    Other,
}

/// The modifier keys held during an event.
#[derive(Clone, Copy, Debug, PartialEq, Eq, Structural)]
pub struct KeyModifiers {
    pub shift: bool,
    pub control: bool,
    pub alt: bool,
    /// Any further modifier, such as Super or Meta.
    pub other: bool,
}

impl KeyModifiers {
    /// No modifier.
    pub open spec fn nothing() -> Self {
        KeyModifiers { shift: false, control: false, alt: false, other: false }
    }

    /// Control or Alt is held.
    pub open spec fn commands(self) -> bool {
        self.control || self.alt
    }

    /// No modifier.
    pub fn none() -> (r: Self)
        ensures
            r == Self::nothing(),
    {
        KeyModifiers { shift: false, control: false, alt: false, other: false }
    }

    /// Control alone.
    pub fn control() -> (r: Self)
        ensures
            r == (KeyModifiers { control: true, ..Self::nothing() }),
    {
        KeyModifiers { shift: false, control: true, alt: false, other: false }
    }

    /// Shift alone.
    pub fn shift() -> (r: Self)
        ensures
            r == (KeyModifiers { shift: true, ..Self::nothing() }),
    {
        KeyModifiers { shift: true, control: false, alt: false, other: false }
    }

    /// Whether no modifier is held.
    pub fn is_empty(self) -> (r: bool)
        ensures
            r == (self == Self::nothing()),
    {
        !self.shift && !self.control && !self.alt && !self.other
    }
}

/// Which part of a key stroke an event reports.
#[derive(Clone, Copy, Debug, PartialEq, Eq, Structural)]
pub enum KeyEventKind {
    Press,
    Repeat,
    Release,
}

/// One keyboard event.
#[derive(Clone, Copy, Debug, PartialEq, Eq, Structural)]
pub struct KeyEvent {
    pub code: KeyCode,
    pub modifiers: KeyModifiers,
    pub kind: KeyEventKind,
}

impl KeyEvent {
    /// A key press.
    pub fn new(code: KeyCode, modifiers: KeyModifiers) -> (r: Self)
        ensures
            r == (KeyEvent { code, modifiers, kind: KeyEventKind::Press }),
    {
        KeyEvent { code, modifiers, kind: KeyEventKind::Press }
    }
}

/// A mouse button.
#[derive(Clone, Copy, Debug, PartialEq, Eq, Structural)]
pub enum MouseButton {
    Left,
    Right,
    Middle,
}

/// What a mouse event reports.
#[derive(Clone, Copy, Debug, PartialEq, Eq, Structural)]
pub enum MouseEventKind {
    Down(MouseButton),
    Up(MouseButton),
    Drag(MouseButton),
    Moved,
    ScrollDown,
    ScrollUp,
    ScrollLeft,
    ScrollRight,
}

impl MouseEventKind {
    /// A turn of the wheel in any direction.
    pub open spec fn wheel(self) -> bool {
        self is ScrollDown || self is ScrollUp || self is ScrollLeft || self is ScrollRight
    }
}

/// One mouse event in screen cells.
#[derive(Clone, Copy, Debug, PartialEq, Eq, Structural)]
pub struct MouseEvent {
    pub kind: MouseEventKind,
    pub column: u16,
    pub row: u16,
    pub modifiers: KeyModifiers,
}

/// One event of the host terminal.
#[derive(Clone, Debug, PartialEq, Eq)]
pub enum Event {
    Key(KeyEvent),
    Mouse(MouseEvent),
    Paste(String),
    FocusGained,
    FocusLost,
    Resize(u16, u16),
}

impl Event {
    /// A copy of the event.
    pub fn duplicate(&self) -> (r: Self)
        ensures
            r == *self,
    {
        match self {
            Event::Key(key) => Event::Key(*key),
            Event::Mouse(mouse) => Event::Mouse(*mouse),
            Event::Paste(text) => Event::Paste(text.clone()),
            Event::FocusGained => Event::FocusGained,
            Event::FocusLost => Event::FocusLost,
            Event::Resize(columns, rows) => Event::Resize(*columns, *rows),
        }
    }
}

/// A rectangle of screen cells.
#[derive(Clone, Copy, Debug, PartialEq, Eq, Structural)]
pub struct Rect {
    pub x: u16,
    pub y: u16,
    pub width: u16,
    pub height: u16,
}

/// The sum of two cell counts, cut off at the largest one.
pub open spec fn cell_sum(a: u16, b: u16) -> u16 {
    if a + b <= u16::MAX {
        (a + b) as u16
    } else {
        u16::MAX
    }
}

impl Rect {
    /// The first column to the right of the area.
    pub open spec fn right_edge(self) -> u16 {
        cell_sum(self.x, self.width)
    }

    /// The first row below the area.
    pub open spec fn bottom_edge(self) -> u16 {
        cell_sum(self.y, self.height)
    }

    /// Whether a cell lies in the area.
    pub open spec fn holds(self, column: u16, row: u16) -> bool {
        self.x <= column < self.right_edge() && self.y <= row < self.bottom_edge()
    }

    /// An area by its corner and its size.
    pub fn new(x: u16, y: u16, width: u16, height: u16) -> (r: Self)
        ensures
            r == (Rect { x, y, width, height }),
    {
        Rect { x, y, width, height }
    }

    /// The column behind the area.
    pub fn right(self) -> (r: u16)
        ensures
            r == self.right_edge(),
    {
        self.x.saturating_add(self.width)
    }

    /// The row below the area.
    pub fn bottom(self) -> (r: u16)
        ensures
            r == self.bottom_edge(),
    {
        self.y.saturating_add(self.height)
    }

    /// Whether a cell lies in the area.
    pub fn contains(self, column: u16, row: u16) -> (r: bool)
        ensures
            r == self.holds(column, row),
    {
        column >= self.x && column < self.right() && row >= self.y && row < self.bottom()
    }

    /// A row of the area for a pointer row, counted from the top; a pointer
    /// outside counts as the nearest row.
    pub open spec fn nearest_row(self, row: u16) -> int {
        if row <= self.y || self.bottom_edge() <= self.y {
            0
        } else if row >= self.bottom_edge() {
            self.bottom_edge() - 1 - self.y
        } else {
            row - self.y
        }
    }

    /// The row of the area nearest to a pointer row, counted from the top.
    pub fn clamped_row(self, row: u16) -> (r: usize)
        ensures
            r == self.nearest_row(row),
    {
        if row <= self.y || self.bottom() <= self.y {
            0
        } else if row >= self.bottom() {
            (self.bottom() - 1 - self.y) as usize
        } else {
            (row - self.y) as usize
        }
    }
}

} // verus!
