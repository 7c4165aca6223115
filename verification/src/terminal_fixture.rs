//! The terminal fixtures: what is sent to one child, and what its terminal
//! must show for it.

use vstd::prelude::*;

use crate::fixtures::retained::bytes_to_hex;
use crate::input::{KeyCode, KeyEvent, KeyModifiers};
use crate::scan::contains;
use crate::text::{concat2, concat6, decimal_usize, push_char, same_text};

#[allow(unused_imports)]
use crate::fixtures::retained::hex_text;
#[allow(unused_imports)]
use crate::input::KeyEventKind;
#[allow(unused_imports)]
use crate::scan::holds;
#[allow(unused_imports)]
use crate::text::decimal_text;

verus! {

/// What a terminal reports.
#[derive(Clone, Debug, PartialEq, Eq)]
pub enum TerminalEvent {
    Failed(String),
    InputBackpressure { attempted_bytes: usize, pending_bytes: usize, limit_bytes: usize },
    Exited,
    StateChanged,
    OutputTruncated,
}

/// Why an event ends a fixture.
pub open spec fn event_fault(event: TerminalEvent, full: Seq<char>) -> Option<Seq<char>> {
    match event {
        TerminalEvent::Failed(error) => Some("terminal owner failed: "@ + error@),
        TerminalEvent::InputBackpressure { .. } => Some(full),
        TerminalEvent::Exited | TerminalEvent::StateChanged | TerminalEvent::OutputTruncated => None,
    }
}

/// Why an event ends a fixture. `full` says that the input queue is full.
pub fn check_event(event: &TerminalEvent, full: &str) -> (r: Option<String>)
    ensures
        (match r {
            Some(message) => Some(message@),
            None => None,
        }) == event_fault(*event, full@),
{
    match event {
        TerminalEvent::Failed(error) => Some(concat2("terminal owner failed: ", error.as_str())),
        TerminalEvent::InputBackpressure { .. } => Some(full.to_owned()),
        TerminalEvent::Exited | TerminalEvent::StateChanged | TerminalEvent::OutputTruncated => None,
    }
}

/// What an event says of a full input queue, or why it ends the fixture.
pub open spec fn backpressure_reading(event: TerminalEvent) -> Result<Option<Seq<char>>, Seq<char>> {
    match event {
        TerminalEvent::InputBackpressure { attempted_bytes, pending_bytes, limit_bytes } => Ok(
            Some(
                "attempted "@ + decimal_text(attempted_bytes as nat) + " bytes with "@
                    + decimal_text(pending_bytes as nat) + " of "@ + decimal_text(
                    limit_bytes as nat,
                ) + " pending"@,
            ),
        ),
        TerminalEvent::Failed(error) => Err("terminal owner failed: "@ + error@),
        TerminalEvent::Exited | TerminalEvent::StateChanged | TerminalEvent::OutputTruncated => Ok(
            None,
        ),
    }
}

/// What an event says of a full input queue.
pub fn read_backpressure(event: &TerminalEvent) -> (r: Result<Option<String>, String>)
    ensures
        (match r {
            Ok(Some(text)) => Ok(Some(text@)),
            Ok(None) => Ok(None),
            Err(message) => Err(message@),
        }) == backpressure_reading(*event),
{
    match event {
        TerminalEvent::InputBackpressure { attempted_bytes, pending_bytes, limit_bytes } => {
            let attempted = decimal_usize(*attempted_bytes);
            let pending = decimal_usize(*pending_bytes);
            let limit = decimal_usize(*limit_bytes);
            let start = concat6(
                "attempted ",
                attempted.as_str(),
                " bytes with ",
                pending.as_str(),
                " of ",
                limit.as_str(),
            );
            Ok(Some(concat2(start.as_str(), " pending")))
        },
        TerminalEvent::Failed(error) => Err(concat2("terminal owner failed: ", error.as_str())),
        TerminalEvent::Exited | TerminalEvent::StateChanged | TerminalEvent::OutputTruncated => Ok(
            None,
        ),
    }
}

/// A text without its line feeds.
pub open spec fn unwrapped(text: Seq<char>) -> Seq<char>
    decreases text.len(),
{
    if text.len() == 0 {
        text
    } else if text.last() == '\n' {
        unwrapped(text.drop_last())
    } else {
        unwrapped(text.drop_last()).push(text.last())
    }
}

/// A text without its line feeds.
pub fn without_line_feeds(text: &str) -> (r: String)
    ensures
        r@ == unwrapped(text@),
{
    let count: usize = text.unicode_len();
    let mut kept = String::new();
    let mut index: usize = 0;
    proof {
        assert(text@.take(0) =~= Seq::<char>::empty());
    }
    while index < count
        invariant
            index <= count,
            count == text@.len(),
            kept@ == unwrapped(text@.take(index as int)),
        decreases count - index,
    {
        let letter = text.get_char(index);
        proof {
            assert(text@.take(index + 1).drop_last() =~= text@.take(index as int));
        }
        if letter != '\n' {
            push_char(&mut kept, letter);
        }
        index = index + 1;
    }
    proof {
        assert(text@.take(index as int) =~= text@);
    }
    kept
}

/// Whether a terminal shows a text, wherever its lines are broken.
pub open spec fn shows(output: Seq<char>, expected: Seq<char>) -> bool {
    holds(output, expected) || holds(unwrapped(output), expected)
}

/// Whether a terminal shows a text, wherever its lines are broken.
pub fn output_shows(output: &str, expected: &str) -> (r: bool)
    ensures
        r == shows(output@, expected@),
{
    contains(output, expected) || contains(without_line_feeds(output).as_str(), expected)
}

/// Whether a text fits on one line.
pub open spec fn one_line(text: Seq<char>) -> bool {
    forall|i: int| 0 <= i < text.len() ==> (#[trigger] text[i]) != '\r' && text[i] != '\n'
}

/// Refuses a text that does not fit on one line.
pub fn check_round_trip_text(text: &str) -> (r: Result<(), String>)
    ensures
        r is Ok <==> one_line(text@),
        r matches Err(message) ==> message@ == "fixture text must fit on one line"@,
{
    let count: usize = text.unicode_len();
    let mut index: usize = 0;
    while index < count
        invariant
            index <= count,
            count == text@.len(),
            forall|i: int| 0 <= i < index ==> (#[trigger] text@[i]) != '\r' && text@[i] != '\n',
        decreases count - index,
    {
        let letter = text.get_char(index);
        if letter == '\r' || letter == '\n' {
            proof {
                assert(text@[index as int] == letter);
            }
            return Err("fixture text must fit on one line".to_owned());
        }
        index = index + 1;
    }
    Ok(())
}

/// Whether a terminal shows what the child was sent and the size it was given.
pub fn round_trip_shown(output: &str, text: &str) -> (r: bool)
    ensures
        r == (holds(output@, "fixture-echo:"@ + text@) && holds(
            output@,
            "fixture-size:42x12"@,
        )),
{
    let expected = concat2("fixture-echo:", text);
    contains(output, expected.as_str()) && contains(output, "fixture-size:42x12")
}

/// The keys that a text is typed with.
pub open spec fn typed_keys(text: Seq<char>) -> Seq<KeyEvent>
    decreases text.len(),
{
    if text.len() == 0 {
        Seq::empty()
    } else {
        typed_keys(text.drop_last()).push(
            KeyEvent {
                code: KeyCode::Char(text.last()),
                modifiers: KeyModifiers { shift: false, control: false, alt: false, other: false },
                kind: KeyEventKind::Press,
            },
        )
    }
}

fn press(code: KeyCode, shift: bool, control: bool, alt: bool) -> (r: KeyEvent)
    ensures
        r == (KeyEvent {
            code,
            modifiers: KeyModifiers { shift, control, alt, other: false },
            kind: KeyEventKind::Press,
        }),
{
    KeyEvent::new(code, KeyModifiers { shift, control, alt, other: false })
}

/// The keys that a text is typed with.
pub fn type_text(text: &str) -> (r: Vec<KeyEvent>)
    ensures
        r@ == typed_keys(text@),
{
    let count: usize = text.unicode_len();
    let mut keys: Vec<KeyEvent> = Vec::new();
    let mut index: usize = 0;
    proof {
        assert(text@.take(0) =~= Seq::<char>::empty());
    }
    while index < count
        invariant
            index <= count,
            count == text@.len(),
            keys@ == typed_keys(text@.take(index as int)),
        decreases count - index,
    {
        proof {
            assert(text@.take(index + 1).drop_last() =~= text@.take(index as int));
        }
        keys.push(press(KeyCode::Char(text.get_char(index)), false, false, false));
        index = index + 1;
    }
    proof {
        assert(text@.take(index as int) =~= text@);
    }
    keys
}

/// What a child reports once it read some bytes.
pub fn input_marker(expected: &Vec<u8>) -> (r: String)
    ensures
        r@ == "input-bytes:"@ + hex_text(expected@, expected@.len() as int),
{
    let hex = bytes_to_hex(expected);
    concat2("input-bytes:", hex.as_str())
}

/// What a child reports once it read mouse bytes.
pub fn mouse_marker(expected: &Vec<u8>) -> (r: String)
    ensures
        r@ == "mouse-bytes:"@ + hex_text(expected@, expected@.len() as int),
{
    let hex = bytes_to_hex(expected);
    concat2("mouse-bytes:", hex.as_str())
}

/// A color of a terminal cell.
#[derive(Clone, Copy, Debug, PartialEq, Eq, Structural)]
pub enum CellColor {
    Reset,
    Rgb(u8, u8, u8),
    /// One color of a palette.
    Palette(u8),
}

/// One cell of a terminal.
#[derive(Clone, Debug, PartialEq, Eq)]
pub struct RenderedCell {
    pub symbol: String,
    pub fg: CellColor,
    pub bold: bool,
    pub dim: bool,
    pub italic: bool,
    pub underlined: bool,
    pub reversed: bool,
}

/// The shape of a visible cursor.
#[derive(Clone, Copy, Debug, PartialEq, Eq, Structural)]
pub enum CursorShape {
    Block,
    Underline,
    Bar,
}

/// A visible cursor.
#[derive(Clone, Copy, Debug, PartialEq, Eq, Structural)]
pub struct RenderedCursor {
    pub x: u16,
    pub y: u16,
    pub shape: CursorShape,
    pub blinking: bool,
}

/// What is wrong with the first row of the rendering fixture, or with its
/// cursor.
pub open spec fn render_fault(row: Seq<RenderedCell>, cursor: Option<RenderedCursor>) -> Option<
    Seq<char>,
> {
    if row[0].fg == CellColor::Reset || row[0].fg == row[3].fg {
        Some("16-color cell lost its color"@)
    } else if row[1].fg != CellColor::Rgb(255, 95, 0) {
        Some("256-color cell changed"@)
    } else if row[2].fg != CellColor::Rgb(1, 2, 3) {
        Some("truecolor cell changed"@)
    } else if !row[3].bold {
        Some("style modifier BOLD was not preserved"@)
    } else if !row[4].dim {
        Some("style modifier DIM was not preserved"@)
    } else if !row[5].italic {
        Some("style modifier ITALIC was not preserved"@)
    } else if !row[6].underlined {
        Some("style modifier UNDERLINED was not preserved"@)
    } else if !row[7].reversed {
        Some("style modifier REVERSED was not preserved"@)
    } else if row[8].symbol@ != "界"@ {
        Some("wide character head changed"@)
    } else if row[9].symbol@ != " "@ {
        Some("wide character tail used a visible cell"@)
    } else if row[10].symbol@ != "e\u{301}"@ {
        Some("combining character was split"@)
    } else {
        cursor_fault(cursor)
    }
}

fn cells_fault(row: &Vec<RenderedCell>) -> (r: Option<&'static str>)
    requires
        row@.len() > 10,
    ensures
        match r {
            Some(message) => forall|cursor: Option<RenderedCursor>|
                #[trigger] render_fault(row@, cursor) == Some(message@),
            None => forall|cursor: Option<RenderedCursor>|
                #[trigger] render_fault(row@, cursor) == cursor_fault(cursor),
        },
{
    if row[0].fg == CellColor::Reset || row[0].fg == row[3].fg {
        Some("16-color cell lost its color")
    } else if row[1].fg != CellColor::Rgb(255, 95, 0) {
        Some("256-color cell changed")
    } else if row[2].fg != CellColor::Rgb(1, 2, 3) {
        Some("truecolor cell changed")
    } else if !row[3].bold {
        Some("style modifier BOLD was not preserved")
    } else if !row[4].dim {
        Some("style modifier DIM was not preserved")
    } else if !row[5].italic {
        Some("style modifier ITALIC was not preserved")
    } else if !row[6].underlined {
        Some("style modifier UNDERLINED was not preserved")
    } else if !row[7].reversed {
        Some("style modifier REVERSED was not preserved")
    } else if !same_text(row[8].symbol.as_str(), "界") {
        Some("wide character head changed")
    } else if !same_text(row[9].symbol.as_str(), " ") {
        Some("wide character tail used a visible cell")
    } else if !same_text(row[10].symbol.as_str(), "e\u{301}") {
        Some("combining character was split")
    } else {
        None
    }
}

/// What is wrong with the cursor of the rendering fixture.
pub open spec fn cursor_fault(cursor: Option<RenderedCursor>) -> Option<Seq<char>> {
    match cursor {
        None => Some("visible cursor was missing"@),
        Some(cursor) => if cursor.x != 4 || cursor.y != 2 {
            Some("cursor position changed"@)
        } else if cursor.shape != CursorShape::Bar {
            Some("cursor shape changed"@)
        } else if cursor.blinking {
            Some("steady cursor became blinking"@)
        } else {
            None
        },
    }
}

/// Checks the first row of the rendering fixture and its cursor.
pub fn assert_primary_render(row: &Vec<RenderedCell>, cursor: Option<RenderedCursor>) -> (r: Result<
    (),
    String,
>)
    requires
        row@.len() > 10,
    ensures
        match render_fault(row@, cursor) {
            None => r is Ok,
            Some(message) => r matches Err(text) && text@ == message,
        },
{
    if let Some(message) = cells_fault(row) {
        return Err(message.to_owned());
    }
    match cursor {
        None => Err("visible cursor was missing".to_owned()),
        Some(cursor) => if cursor.x != 4 || cursor.y != 2 {
            Err("cursor position changed".to_owned())
        } else if cursor.shape != CursorShape::Bar {
            Err("cursor shape changed".to_owned())
        } else if cursor.blinking {
            Err("steady cursor became blinking".to_owned())
        } else {
            Ok(())
        },
    }
}

} // verus!
