//! The scripts of the terminal fixtures. A driver owns the terminal: it does
//! what a script answers, and hands back what the terminal shows.

use vstd::prelude::*;

use crate::input::{KeyCode, KeyEvent, KeyModifiers, MouseButton, MouseEventKind};
use crate::scan::{contains, starts_with};
use crate::terminal_fixture::{
    assert_primary_render, check_event, check_round_trip_text, input_marker, mouse_marker,
    output_shows, read_backpressure, round_trip_shown, type_text, without_line_feeds,
    RenderedCell, RenderedCursor, TerminalEvent,
};
use crate::text::{concat3, concat4, decimal_u64, same_text};

#[allow(unused_imports)]
use crate::fixtures::retained::hex_text;
#[allow(unused_imports)]
use crate::input::KeyEventKind;
#[allow(unused_imports)]
use crate::scan::{begins, holds};
#[allow(unused_imports)]
use crate::terminal_fixture::{
    backpressure_reading, event_fault, one_line, render_fault, shows, typed_keys, unwrapped,
};
#[allow(unused_imports)]
use crate::text::decimal_text;

verus! {

/// How long one condition may take, in seconds.
pub const FIXTURE_TIMEOUT: u64 = 10;

/// How many full pastes a blocked child is sent at most.
pub const BURST_LIMIT: usize = 8;

/// What the child of the input fixture reads: its answer to a cursor query,
/// the keys of the fixture, and the focus reports.
pub const INPUT_TEXT: &'static str = "\u{1b}[4;1R\r\t\u{7f}\u{1b}\u{1b}OA\u{1b}OB\u{1b}OC\u{1b}OD\u{1b}OH\u{1b}OF\u{1b}[2~\u{1b}[3~\u{1b}[5~\u{1b}[6~\u{1b}OP\u{1b}[15~\u{1b}[24~x\u{3}\u{1b}[Z\u{1b}[1;5A\u{1b}[I\u{1b}[O";

/// What the child of the mouse fixture reads.
pub const MOUSE_TEXT: &'static str = "\u{1b}[<0;3;4M\u{1b}[<0;3;4m\u{1b}[<35;4;5M\u{1b}[<0;5;6M\u{1b}[<32;6;7M\u{1b}[<0;6;7m\u{1b}[<64;7;8M\u{1b}[<65;8;9M\u{1b}[<66;9;10M\u{1b}[<67;10;11M";

/// The byte of a character; a question mark where it is not ASCII.
pub open spec fn ascii_byte(character: char) -> u8 {
    if (character as u32) < 128 {
        character as u8
    } else {
        63u8
    }
}

/// The bytes of an ASCII text.
pub open spec fn ascii_bytes(text: Seq<char>) -> Seq<u8> {
    text.map_values(|character: char| ascii_byte(character))
}

/// The bytes of an ASCII text.
pub fn bytes_of(text: &str) -> (r: Vec<u8>)
    ensures
        r@ == ascii_bytes(text@),
{
    let count: usize = text.unicode_len();
    let mut bytes: Vec<u8> = Vec::new();
    let mut index: usize = 0;
    while index < count
        invariant
            index <= count,
            count == text@.len(),
            bytes@ == ascii_bytes(text@.take(index as int)),
        decreases count - index,
    {
        let character = text.get_char(index);
        let byte: u8 = if (character as u32) < 128 {
            character as u8
        } else {
            63
        };
        bytes.push(byte);
        proof {
            assert(ascii_bytes(text@.take(index + 1)) =~= ascii_bytes(
                text@.take(index as int),
            ).push(ascii_byte(character)));
        }
        index = index + 1;
    }
    proof {
        assert(text@.take(index as int) =~= text@);
    }
    bytes
}

/// Why a terminal refuses a paste.
#[derive(Clone, Copy, Debug, PartialEq, Eq, Structural)]
pub enum PasteRejection {
    TooLarge,
    Busy,
    Closed,
}

/// What became of the latest paste.
#[derive(Clone, Debug, PartialEq, Eq)]
pub enum PasteState {
    Unsent,
    Rejected { kind: PasteRejection, detail: String },
    Pending { id: u64 },
    Delivered,
    Failed { id: u64, detail: String },
}

/// What a terminal shows.
#[derive(Clone, Debug, PartialEq, Eq)]
pub struct Screen {
    pub text: String,
    pub width: u16,
    pub height: u16,
    pub rows: Vec<Vec<RenderedCell>>,
    pub cursor: Option<RenderedCursor>,
    pub mouse_tracking: bool,
}

impl Screen {
    /// Whether a cell shows a symbol.
    pub open spec fn has_symbol(&self, x: int, y: int, symbol: Seq<char>) -> bool {
        0 <= y < self.rows@.len() && 0 <= x < self.rows@[y]@.len() && self.rows@[y]@[x].symbol@
            == symbol
    }

    /// Whether a cell shows a symbol.
    pub fn symbol_is(&self, x: usize, y: usize, symbol: &str) -> (r: bool)
        ensures
            r == self.has_symbol(x as int, y as int, symbol@),
    {
        y < self.rows.len() && x < self.rows[y].len() && same_text(
            self.rows[y][x].symbol.as_str(),
            symbol,
        )
    }
}

/// What a driver sees of a terminal.
#[derive(Clone, Debug, PartialEq, Eq)]
pub struct Sight {
    pub screen: Screen,
    /// The events since the driver last read them.
    pub events: Vec<TerminalEvent>,
    pub paste: PasteState,
}

/// A screen that the rendering fixture waits for.
#[derive(Clone, Copy, Debug, PartialEq, Eq, Structural)]
pub enum ScreenPhase {
    Primary,
    Alternate,
    Restored,
    Unwrapped,
    Reflowed,
    Resized,
}

/// One step of a terminal fixture.
#[derive(Clone, Copy, Debug, PartialEq, Eq)]
pub enum TerminalStep {
    Resize(u16, u16),
    Press(KeyCode),
    /// Type the text of the script.
    TypeText,
    /// Press every key of the input fixture.
    PressInputKeys,
    Focus(bool),
    /// Send an ASCII text as it is.
    Send(&'static str),
    /// Move the mouse or turn its wheel. Stackhand owns the gesture where the
    /// flag says so.
    Mouse(MouseEventKind, u16, u16, bool),
    /// Wait for the text of the script and the new size.
    AwaitEcho,
    /// Wait for a text.
    Await(&'static str),
    /// Wait for the first text; the second must then be there, across line
    /// ends where the flag says so, or the third is the failure.
    AwaitShowing(&'static str, &'static str, bool, &'static str),
    /// Wait for the bytes of the input fixture.
    AwaitInputBytes,
    /// Wait for a child that follows the mouse.
    AwaitMouse,
    /// Wait for the bytes of the mouse fixture.
    AwaitMouseBytes,
    Paste(&'static str),
    /// Wait for the delivery of a paste, which a word names.
    AwaitPaste(&'static str),
    /// Paste one byte more than a terminal accepts.
    PasteOversized,
    /// The oversized paste was refused.
    AwaitRefusal,
    /// Paste as much as a terminal accepts, again and again, until one paste
    /// is refused.
    Burst,
    AwaitBackpressure,
    AwaitScreen(ScreenPhase),
}

/// What a driver does for a step.
#[derive(Clone, Debug, PartialEq, Eq)]
pub enum TerminalAct {
    Resize(u16, u16),
    Keys(Vec<KeyEvent>),
    Focus(bool),
    Bytes(Vec<u8>),
    Mouse(MouseEventKind, u16, u16, bool),
    Paste(String),
    /// Paste a letter as often as a terminal accepts, and so many times more.
    PasteFilled(char, usize),
}

/// What a driver does for a step, as mathematical values.
pub enum ActView {
    Resize(u16, u16),
    Keys(Seq<KeyEvent>),
    Focus(bool),
    Bytes(Seq<u8>),
    Mouse(MouseEventKind, u16, u16, bool),
    Paste(Seq<char>),
    PasteFilled(char, usize),
}

impl View for TerminalAct {
    type V = ActView;

    open spec fn view(&self) -> ActView {
        match *self {
            TerminalAct::Resize(cols, rows) => ActView::Resize(cols, rows),
            TerminalAct::Keys(keys) => ActView::Keys(keys@),
            TerminalAct::Focus(focused) => ActView::Focus(focused),
            TerminalAct::Bytes(bytes) => ActView::Bytes(bytes@),
            TerminalAct::Mouse(kind, col, row, owned) => ActView::Mouse(kind, col, row, owned),
            TerminalAct::Paste(text) => ActView::Paste(text@),
            TerminalAct::PasteFilled(letter, more) => ActView::PasteFilled(letter, more),
        }
    }
}

/// The answer to what a driver sees.
#[derive(Clone, Debug, PartialEq, Eq)]
pub enum TerminalAnswer {
    /// The step is not over.
    Wait,
    /// The step is over.
    Done,
    /// The step is over, and this is worth a note.
    Noted(String),
    /// The step is over once the driver did this.
    Act(TerminalAct),
    /// The driver does this, and the step goes on.
    Repeat(TerminalAct),
    /// The fixture failed.
    Fail(String),
    /// The fixture failed by what the terminal shows, which is worth showing.
    FailShowing(String),
}

/// The answer to what a driver sees, as mathematical values.
pub enum AnswerView {
    Wait,
    Done,
    Noted(Seq<char>),
    Act(ActView),
    Repeat(ActView),
    Fail(Seq<char>),
    FailShowing(Seq<char>),
}

impl View for TerminalAnswer {
    type V = AnswerView;

    open spec fn view(&self) -> AnswerView {
        match *self {
            TerminalAnswer::Wait => AnswerView::Wait,
            TerminalAnswer::Done => AnswerView::Done,
            TerminalAnswer::Noted(text) => AnswerView::Noted(text@),
            TerminalAnswer::Act(act) => AnswerView::Act(act@),
            TerminalAnswer::Repeat(act) => AnswerView::Repeat(act@),
            TerminalAnswer::Fail(message) => AnswerView::Fail(message@),
            TerminalAnswer::FailShowing(message) => AnswerView::FailShowing(message@),
        }
    }
}

/// A key with its modifiers.
pub open spec fn pressed(code: KeyCode, shift: bool, control: bool, alt: bool) -> KeyEvent {
    KeyEvent {
        code,
        modifiers: KeyModifiers { shift, control, alt, other: false },
        kind: KeyEventKind::Press,
    }
}

/// The keys of the input fixture.
pub open spec fn input_keys() -> Seq<KeyEvent> {
    seq![
        pressed(KeyCode::Enter, false, false, false),
        pressed(KeyCode::Tab, false, false, false),
        pressed(KeyCode::Backspace, false, false, false),
        pressed(KeyCode::Esc, false, false, false),
        pressed(KeyCode::Up, false, false, false),
        pressed(KeyCode::Down, false, false, false),
        pressed(KeyCode::Right, false, false, false),
        pressed(KeyCode::Left, false, false, false),
        pressed(KeyCode::Home, false, false, false),
        pressed(KeyCode::End, false, false, false),
        pressed(KeyCode::Insert, false, false, false),
        pressed(KeyCode::Delete, false, false, false),
        pressed(KeyCode::PageUp, false, false, false),
        pressed(KeyCode::PageDown, false, false, false),
        pressed(KeyCode::F(1), false, false, false),
        pressed(KeyCode::F(5), false, false, false),
        pressed(KeyCode::F(12), false, false, false),
        pressed(KeyCode::Char('x'), false, false, true),
        pressed(KeyCode::Char('c'), false, true, false),
        pressed(KeyCode::BackTab, true, false, false),
        pressed(KeyCode::Up, false, true, false),
    ]
}

fn press(code: KeyCode, shift: bool, control: bool, alt: bool) -> (r: KeyEvent)
    ensures
        r == pressed(code, shift, control, alt),
{
    KeyEvent::new(code, KeyModifiers { shift, control, alt, other: false })
}

/// The keys of the input fixture.
pub fn input_fixture_events() -> (r: Vec<KeyEvent>)
    ensures
        r@ == input_keys(),
{
    let keys = vec![
        press(KeyCode::Enter, false, false, false),
        press(KeyCode::Tab, false, false, false),
        press(KeyCode::Backspace, false, false, false),
        press(KeyCode::Esc, false, false, false),
        press(KeyCode::Up, false, false, false),
        press(KeyCode::Down, false, false, false),
        press(KeyCode::Right, false, false, false),
        press(KeyCode::Left, false, false, false),
        press(KeyCode::Home, false, false, false),
        press(KeyCode::End, false, false, false),
        press(KeyCode::Insert, false, false, false),
        press(KeyCode::Delete, false, false, false),
        press(KeyCode::PageUp, false, false, false),
        press(KeyCode::PageDown, false, false, false),
        press(KeyCode::F(1), false, false, false),
        press(KeyCode::F(5), false, false, false),
        press(KeyCode::F(12), false, false, false),
        press(KeyCode::Char('x'), false, false, true),
        press(KeyCode::Char('c'), false, true, false),
        press(KeyCode::BackTab, true, false, false),
        press(KeyCode::Up, false, true, false),
    ];
    proof {
        assert(keys@ =~= input_keys());
    }
    keys
}

/// Why the first event, from `from` on, that ends a fixture ends it. `full`
/// says that the input queue is full.
pub open spec fn events_fault(events: Seq<TerminalEvent>, full: Seq<char>, from: int) -> Option<
    Seq<char>,
>
    decreases events.len() - from,
{
    if from < 0 || from >= events.len() {
        None
    } else {
        match event_fault(events[from], full) {
            Some(fault) => Some(fault),
            None => events_fault(events, full, from + 1),
        }
    }
}

fn check_events(events: &Vec<TerminalEvent>, full: &str) -> (r: Option<String>)
    ensures
        (match r {
            Some(message) => Some(message@),
            None => None,
        }) == events_fault(events@, full@, 0),
{
    let mut index: usize = 0;
    while index < events.len()
        invariant
            index <= events.len(),
            events_fault(events@, full@, 0) == events_fault(events@, full@, index as int),
        decreases events.len() - index,
    {
        if let Some(message) = check_event(&events[index], full) {
            return Some(message);
        }
        index = index + 1;
    }
    None
}

/// What the first event, from `from` on, says of a full input queue.
pub open spec fn first_backpressure(events: Seq<TerminalEvent>, from: int) -> Result<
    Option<Seq<char>>,
    Seq<char>,
>
    decreases events.len() - from,
{
    if from < 0 || from >= events.len() {
        Ok(None)
    } else {
        match backpressure_reading(events[from]) {
            Ok(None) => first_backpressure(events, from + 1),
            reading => reading,
        }
    }
}

fn find_backpressure(events: &Vec<TerminalEvent>) -> (r: Result<Option<String>, String>)
    ensures
        (match r {
            Ok(Some(text)) => Ok(Some(text@)),
            Ok(None) => Ok(None),
            Err(message) => Err(message@),
        }) == first_backpressure(events@, 0),
{
    let mut index: usize = 0;
    while index < events.len()
        invariant
            index <= events.len(),
            first_backpressure(events@, 0) == first_backpressure(events@, index as int),
        decreases events.len() - index,
    {
        match read_backpressure(&events[index]) {
            Ok(None) => {},
            reading => {
                return reading;
            },
        }
        index = index + 1;
    }
    Ok(None)
}

/// The answer of a wait for a text. The first look at the text comes before
/// the first look at the events.
pub open spec fn text_answer(
    sight: Sight,
    fresh: bool,
    shown: bool,
    then: AnswerView,
) -> AnswerView {
    if fresh {
        if shown {
            then
        } else {
            AnswerView::Wait
        }
    } else {
        match events_fault(sight.events@, "fixture filled the bounded child-input queue"@, 0) {
            Some(fault) => AnswerView::Fail(fault),
            None => if shown {
                then
            } else {
                AnswerView::Wait
            },
        }
    }
}

fn await_text(sight: &Sight, fresh: bool, shown: bool, next: TerminalAnswer) -> (r: TerminalAnswer)
    ensures
        r@ == text_answer(*sight, fresh, shown, next@),
{
    if !fresh {
        if let Some(fault) = check_events(
            &sight.events,
            "fixture filled the bounded child-input queue",
        ) {
            return TerminalAnswer::Fail(fault);
        }
    }
    if shown {
        next
    } else {
        TerminalAnswer::Wait
    }
}

/// The answer of a wait for a state of the terminal.
pub open spec fn state_answer(
    sight: Sight,
    full: Seq<char>,
    reached: bool,
    then: AnswerView,
) -> AnswerView {
    match events_fault(sight.events@, full, 0) {
        Some(fault) => AnswerView::Fail(fault),
        None => if reached {
            then
        } else {
            AnswerView::Wait
        },
    }
}

fn await_state(sight: &Sight, full: &str, reached: bool, next: TerminalAnswer) -> (r:
    TerminalAnswer)
    ensures
        r@ == state_answer(*sight, full@, reached, next@),
{
    if let Some(fault) = check_events(&sight.events, full) {
        return TerminalAnswer::Fail(fault);
    }
    if reached {
        next
    } else {
        TerminalAnswer::Wait
    }
}

/// Whether a screen of the rendering fixture is there.
pub open spec fn screen_reached(phase: ScreenPhase, screen: Screen) -> bool {
    match phase {
        ScreenPhase::Primary => screen.has_symbol(0, 0, "R"@) && (screen.cursor matches Some(cursor)
            && cursor.x == 4 && cursor.y == 2),
        ScreenPhase::Alternate => screen.has_symbol(0, 0, "A"@) && screen.cursor is None,
        ScreenPhase::Restored => screen.has_symbol(0, 0, "R"@) && screen.cursor is Some,
        ScreenPhase::Unwrapped => begins(screen.text@, "abcdefghijklmno"@),
        ScreenPhase::Reflowed => screen.width == 8 && screen.has_symbol(0, 0, "a"@)
            && screen.has_symbol(0, 1, "i"@),
        ScreenPhase::Resized => screen.width == 7 && screen.height == 5,
    }
}

fn reached(phase: ScreenPhase, screen: &Screen) -> (r: bool)
    ensures
        r == screen_reached(phase, *screen),
{
    match phase {
        ScreenPhase::Primary => screen.symbol_is(0, 0, "R") && match screen.cursor {
            Some(cursor) => cursor.x == 4 && cursor.y == 2,
            None => false,
        },
        ScreenPhase::Alternate => screen.symbol_is(0, 0, "A") && screen.cursor.is_none(),
        ScreenPhase::Restored => screen.symbol_is(0, 0, "R") && screen.cursor.is_some(),
        ScreenPhase::Unwrapped => starts_with(screen.text.as_str(), "abcdefghijklmno"),
        ScreenPhase::Reflowed => screen.width == 8 && screen.symbol_is(0, 0, "a")
            && screen.symbol_is(0, 1, "i"),
        ScreenPhase::Resized => screen.width == 7 && screen.height == 5,
    }
}

/// What is wrong with a screen of the rendering fixture that is there.
pub open spec fn screen_fault(phase: ScreenPhase, screen: Screen) -> Option<Seq<char>> {
    match phase {
        ScreenPhase::Primary => if screen.rows@.len() == 0 || screen.rows@[0]@.len() <= 10 {
            Some("initial fixture width changed"@)
        } else {
            render_fault(screen.rows@[0]@, screen.cursor)
        },
        ScreenPhase::Alternate => if begins(screen.text@, "ALT"@) {
            None
        } else {
            Some("alternate screen did not render"@)
        },
        ScreenPhase::Unwrapped => if screen.width == 16 {
            None
        } else {
            Some("initial fixture width changed"@)
        },
        ScreenPhase::Reflowed => if begins(screen.text@, "abcdefgh\nijklmno"@) {
            None
        } else {
            Some("wrapped text did not reflow at the new width"@)
        },
        ScreenPhase::Restored | ScreenPhase::Resized => None,
    }
}

fn check_screen(phase: ScreenPhase, screen: &Screen) -> (r: Option<String>)
    ensures
        (match r {
            Some(message) => Some(message@),
            None => None,
        }) == screen_fault(phase, *screen),
{
    match phase {
        ScreenPhase::Primary => if screen.rows.len() == 0 || screen.rows[0].len() <= 10 {
            Some("initial fixture width changed".to_owned())
        } else {
            match assert_primary_render(&screen.rows[0], screen.cursor) {
                Ok(_) => None,
                Err(message) => Some(message),
            }
        },
        ScreenPhase::Alternate => if starts_with(screen.text.as_str(), "ALT") {
            None
        } else {
            Some("alternate screen did not render".to_owned())
        },
        ScreenPhase::Unwrapped => if screen.width == 16 {
            None
        } else {
            Some("initial fixture width changed".to_owned())
        },
        ScreenPhase::Reflowed => if starts_with(screen.text.as_str(), "abcdefgh\nijklmno") {
            None
        } else {
            Some("wrapped text did not reflow at the new width".to_owned())
        },
        ScreenPhase::Restored | ScreenPhase::Resized => None,
    }
}

/// The answer once a screen is there.
pub open spec fn screen_answer(phase: ScreenPhase, screen: Screen) -> AnswerView {
    match screen_fault(phase, screen) {
        Some(fault) => if phase == ScreenPhase::Reflowed {
            AnswerView::FailShowing(fault)
        } else {
            AnswerView::Fail(fault)
        },
        None => AnswerView::Done,
    }
}

/// The answer of a wait for the delivery of a paste.
pub open spec fn delivery_answer(paste: PasteState, label: Seq<char>) -> AnswerView {
    match paste {
        PasteState::Unsent | PasteState::Pending { .. } => AnswerView::Wait,
        PasteState::Delivered => AnswerView::Done,
        PasteState::Rejected { detail, .. } => AnswerView::Fail(
            label + " paste was rejected: "@ + detail@,
        ),
        PasteState::Failed { id, detail } => AnswerView::Fail(
            "paste request "@ + decimal_text(id as nat) + " failed: "@ + detail@,
        ),
    }
}

fn await_delivery(paste: &PasteState, label: &str) -> (r: TerminalAnswer)
    ensures
        r@ == delivery_answer(*paste, label@),
{
    match paste {
        PasteState::Unsent | PasteState::Pending { .. } => TerminalAnswer::Wait,
        PasteState::Delivered => TerminalAnswer::Done,
        PasteState::Rejected { detail, .. } => TerminalAnswer::Fail(
            concat3(label, " paste was rejected: ", detail.as_str()),
        ),
        PasteState::Failed { id, detail } => {
            let number = decimal_u64(*id);
            TerminalAnswer::Fail(
                concat4("paste request ", number.as_str(), " failed: ", detail.as_str()),
            )
        },
    }
}

/// The answer of a burst of pastes, of which so many were sent.
pub open spec fn burst_answer(paste: PasteState, sent: int) -> AnswerView {
    if sent == 0 {
        AnswerView::Repeat(ActView::PasteFilled('b', 0))
    } else {
        match paste {
            PasteState::Rejected { kind, detail } => if kind == PasteRejection::Busy {
                AnswerView::Done
            } else {
                AnswerView::Fail("blocked paste was rejected unexpectedly: "@ + detail@)
            },
            _ => if sent < BURST_LIMIT {
                AnswerView::Repeat(ActView::PasteFilled('b', 0))
            } else {
                AnswerView::Fail("blocked paste burst did not reach its bound"@)
            },
        }
    }
}

fn await_burst(paste: &PasteState, sent: usize) -> (r: TerminalAnswer)
    ensures
        r@ == burst_answer(*paste, sent as int),
{
    if sent == 0 {
        return TerminalAnswer::Repeat(TerminalAct::PasteFilled('b', 0));
    }
    match paste {
        PasteState::Rejected { kind, detail } => if *kind == PasteRejection::Busy {
            TerminalAnswer::Done
        } else {
            TerminalAnswer::Fail(
                crate::text::concat2("blocked paste was rejected unexpectedly: ", detail.as_str()),
            )
        },
        _ => if sent < BURST_LIMIT {
            TerminalAnswer::Repeat(TerminalAct::PasteFilled('b', 0))
        } else {
            TerminalAnswer::Fail("blocked paste burst did not reach its bound".to_owned())
        },
    }
}

/// A script under way.
pub struct TerminalScript {
    pub steps: Vec<TerminalStep>,
    pub at: usize,
    /// Whether the step at hand was not looked at yet.
    pub fresh: bool,
    /// How many pastes of a burst were sent.
    pub sent: usize,
    /// The text that is typed.
    pub text: String,
}

/// A script under way, as mathematical values.
pub struct ScriptView {
    pub steps: Seq<TerminalStep>,
    pub at: int,
    pub fresh: bool,
    pub sent: int,
    pub text: Seq<char>,
}

impl View for TerminalScript {
    type V = ScriptView;

    open spec fn view(&self) -> ScriptView {
        ScriptView {
            steps: self.steps@,
            at: self.at as int,
            fresh: self.fresh,
            sent: self.sent as int,
            text: self.text@,
        }
    }
}

/// What a child reports once it read a text.
pub open spec fn marker_of(label: Seq<char>, text: Seq<char>) -> Seq<char> {
    label + hex_text(ascii_bytes(text), text.len() as int)
}

/// Whether an answer ends its step.
pub open spec fn ends_step(answer: AnswerView) -> bool {
    answer is Done || answer is Noted || answer is Act
}

impl ScriptView {
    /// The answer of the step at hand.
    pub open spec fn answer(self, sight: Sight) -> AnswerView {
        let shown = sight.screen.text@;
        match self.steps[self.at] {
            TerminalStep::Resize(cols, rows) => AnswerView::Act(ActView::Resize(cols, rows)),
            TerminalStep::Press(code) => AnswerView::Act(
                ActView::Keys(seq![pressed(code, false, false, false)]),
            ),
            TerminalStep::TypeText => AnswerView::Act(ActView::Keys(typed_keys(self.text))),
            TerminalStep::PressInputKeys => AnswerView::Act(ActView::Keys(input_keys())),
            TerminalStep::Focus(focused) => AnswerView::Act(ActView::Focus(focused)),
            TerminalStep::Send(text) => AnswerView::Act(ActView::Bytes(ascii_bytes(text@))),
            TerminalStep::Mouse(kind, col, row, owned) => AnswerView::Act(
                ActView::Mouse(kind, col, row, owned),
            ),
            TerminalStep::AwaitEcho => if holds(shown, "fixture-echo:"@ + self.text) && holds(
                shown,
                "fixture-size:42x12"@,
            ) {
                AnswerView::Done
            } else {
                AnswerView::Wait
            },
            TerminalStep::Await(text) => text_answer(
                sight,
                self.fresh,
                shows(shown, text@),
                AnswerView::Done,
            ),
            TerminalStep::AwaitShowing(text, needle, across, message) => text_answer(
                sight,
                self.fresh,
                shows(shown, text@),
                if holds(
                    if across {
                        unwrapped(shown)
                    } else {
                        shown
                    },
                    needle@,
                ) {
                    AnswerView::Done
                } else {
                    AnswerView::FailShowing(message@)
                },
            ),
            TerminalStep::AwaitInputBytes => text_answer(
                sight,
                self.fresh,
                shows(shown, marker_of("input-bytes:"@, INPUT_TEXT@)),
                AnswerView::Noted(shown),
            ),
            TerminalStep::AwaitMouse => state_answer(
                sight,
                "mouse fixture filled the child-input queue"@,
                sight.screen.mouse_tracking && holds(shown, "mouse-ready"@),
                AnswerView::Done,
            ),
            TerminalStep::AwaitMouseBytes => state_answer(
                sight,
                "mouse fixture filled the child-input queue"@,
                holds(unwrapped(shown), marker_of("mouse-bytes:"@, MOUSE_TEXT@)),
                AnswerView::Done,
            ),
            TerminalStep::Paste(text) => AnswerView::Act(ActView::Paste(text@)),
            TerminalStep::AwaitPaste(label) => delivery_answer(sight.paste, label@),
            TerminalStep::PasteOversized => AnswerView::Act(ActView::PasteFilled('x', 1)),
            TerminalStep::AwaitRefusal => if sight.paste matches PasteState::Rejected { kind, .. }
                && kind == PasteRejection::TooLarge {
                AnswerView::Done
            } else {
                AnswerView::Fail("oversized paste was accepted"@)
            },
            TerminalStep::Burst => burst_answer(sight.paste, self.sent),
            TerminalStep::AwaitBackpressure => match first_backpressure(sight.events@, 0) {
                Ok(Some(text)) => AnswerView::Noted(text),
                Ok(None) => AnswerView::Wait,
                Err(message) => AnswerView::Fail(message),
            },
            TerminalStep::AwaitScreen(phase) => state_answer(
                sight,
                "render fixture filled the child-input queue"@,
                screen_reached(phase, sight.screen),
                screen_answer(phase, sight.screen),
            ),
        }
    }

    /// The script once it was shown a terminal, and its answer; no answer
    /// where the script is over.
    pub open spec fn next(self, sight: Sight) -> (ScriptView, Option<AnswerView>) {
        if self.at >= self.steps.len() {
            (self, None)
        } else {
            let answer = self.answer(sight);
            let after = if ends_step(answer) {
                ScriptView { at: self.at + 1, fresh: true, sent: 0, ..self }
            } else {
                ScriptView {
                    fresh: false,
                    sent: if answer is Repeat {
                        self.sent + 1
                    } else {
                        self.sent
                    },
                    ..self
                }
            };
            (after, Some(answer))
        }
    }

    /// Whether the step at hand looks at the events of the terminal.
    pub open spec fn reads_events(self) -> bool {
        0 <= self.at < self.steps.len() && match self.steps[self.at] {
            TerminalStep::Await(_) | TerminalStep::AwaitShowing(..)
            | TerminalStep::AwaitInputBytes => !self.fresh,
            TerminalStep::AwaitMouse | TerminalStep::AwaitMouseBytes
            | TerminalStep::AwaitBackpressure | TerminalStep::AwaitScreen(_) => true,
            _ => false,
        }
    }
}

impl TerminalScript {
    /// A script that has not begun.
    pub fn new(steps: Vec<TerminalStep>, text: &str) -> (r: Self)
        ensures
            r@ == (ScriptView { steps: steps@, at: 0, fresh: true, sent: 0, text: text@ }),
    {
        TerminalScript { steps, at: 0, fresh: true, sent: 0, text: text.to_owned() }
    }

    /// Whether the step at hand looks at the events of the terminal. A driver
    /// that reads them for another step loses them.
    pub fn wants_events(&self) -> (r: bool)
        ensures
            r == self@.reads_events(),
    {
        if self.at >= self.steps.len() {
            return false;
        }
        match self.steps[self.at] {
            TerminalStep::Await(_) | TerminalStep::AwaitShowing(..)
            | TerminalStep::AwaitInputBytes => !self.fresh,
            TerminalStep::AwaitMouse | TerminalStep::AwaitMouseBytes
            | TerminalStep::AwaitBackpressure | TerminalStep::AwaitScreen(_) => true,
            _ => false,
        }
    }

    fn answer_act(&self, step: TerminalStep) -> (r: Option<TerminalAct>)
        requires
            self.at < self.steps.len(),
            step == self.steps@[self.at as int],
        ensures
            match r {
                Some(act) => forall|sight: Sight|
                    #[trigger] self@.answer(sight) == AnswerView::Act(act@),
                None => forall|sight: Sight| !((#[trigger] self@.answer(sight)) is Act),
            },
    {
        match step {
            TerminalStep::Resize(cols, rows) => Some(TerminalAct::Resize(cols, rows)),
            TerminalStep::Press(code) => {
                let keys = vec![press(code, false, false, false)];
                proof {
                    assert(keys@ =~= seq![pressed(code, false, false, false)]);
                }
                Some(TerminalAct::Keys(keys))
            },
            TerminalStep::TypeText => Some(TerminalAct::Keys(type_text(self.text.as_str()))),
            TerminalStep::PressInputKeys => Some(TerminalAct::Keys(input_fixture_events())),
            TerminalStep::Focus(focused) => Some(TerminalAct::Focus(focused)),
            TerminalStep::Send(text) => Some(TerminalAct::Bytes(bytes_of(text))),
            TerminalStep::Mouse(kind, col, row, owned) => Some(
                TerminalAct::Mouse(kind, col, row, owned),
            ),
            TerminalStep::Paste(text) => Some(TerminalAct::Paste(text.to_owned())),
            TerminalStep::PasteOversized => Some(TerminalAct::PasteFilled('x', 1)),
            _ => None,
        }
    }

    fn answer_wait(&self, step: TerminalStep, sight: &Sight) -> (r: TerminalAnswer)
        requires
            self.at < self.steps.len(),
            step == self.steps@[self.at as int],
            !(self@.answer(*sight) is Act),
        ensures
            r@ == self@.answer(*sight),
    {
        let shown = sight.screen.text.as_str();
        match step {
            TerminalStep::AwaitEcho => if round_trip_shown(shown, self.text.as_str()) {
                TerminalAnswer::Done
            } else {
                TerminalAnswer::Wait
            },
            TerminalStep::Await(text) => await_text(
                sight,
                self.fresh,
                output_shows(shown, text),
                TerminalAnswer::Done,
            ),
            TerminalStep::AwaitShowing(text, needle, across, message) => {
                let found = if across {
                    contains(without_line_feeds(shown).as_str(), needle)
                } else {
                    contains(shown, needle)
                };
                let next = if found {
                    TerminalAnswer::Done
                } else {
                    TerminalAnswer::FailShowing(message.to_owned())
                };
                await_text(sight, self.fresh, output_shows(shown, text), next)
            },
            TerminalStep::AwaitInputBytes => {
                let marker = input_marker(&bytes_of(INPUT_TEXT));
                await_text(
                    sight,
                    self.fresh,
                    output_shows(shown, marker.as_str()),
                    TerminalAnswer::Noted(shown.to_owned()),
                )
            },
            TerminalStep::AwaitMouse => await_state(
                sight,
                "mouse fixture filled the child-input queue",
                sight.screen.mouse_tracking && contains(shown, "mouse-ready"),
                TerminalAnswer::Done,
            ),
            TerminalStep::AwaitMouseBytes => {
                let marker = mouse_marker(&bytes_of(MOUSE_TEXT));
                await_state(
                    sight,
                    "mouse fixture filled the child-input queue",
                    contains(without_line_feeds(shown).as_str(), marker.as_str()),
                    TerminalAnswer::Done,
                )
            },
            TerminalStep::AwaitPaste(label) => await_delivery(&sight.paste, label),
            TerminalStep::AwaitRefusal => match &sight.paste {
                PasteState::Rejected { kind, .. } if *kind == PasteRejection::TooLarge => {
                    TerminalAnswer::Done
                },
                _ => TerminalAnswer::Fail("oversized paste was accepted".to_owned()),
            },
            TerminalStep::Burst => await_burst(&sight.paste, self.sent),
            TerminalStep::AwaitBackpressure => match find_backpressure(&sight.events) {
                Ok(Some(text)) => TerminalAnswer::Noted(text),
                Ok(None) => TerminalAnswer::Wait,
                Err(message) => TerminalAnswer::Fail(message),
            },
            TerminalStep::AwaitScreen(phase) => {
                let next = match check_screen(phase, &sight.screen) {
                    Some(fault) => if phase == ScreenPhase::Reflowed {
                        TerminalAnswer::FailShowing(fault)
                    } else {
                        TerminalAnswer::Fail(fault)
                    },
                    None => TerminalAnswer::Done,
                };
                await_state(
                    sight,
                    "render fixture filled the child-input queue",
                    reached(phase, &sight.screen),
                    next,
                )
            },
            _ => TerminalAnswer::Wait,
        }
    }

    /// Shows a terminal to the script.
    pub fn take(&mut self, sight: &Sight) -> (r: Option<TerminalAnswer>)
        ensures
            (final(self)@, match r {
                Some(answer) => Some(answer@),
                None => None,
            }) == old(self)@.next(*sight),
    {
        if self.at >= self.steps.len() {
            return None;
        }
        let step = self.steps[self.at];
        let answer = match self.answer_act(step) {
            Some(act) => TerminalAnswer::Act(act),
            None => self.answer_wait(step, sight),
        };
        match &answer {
            TerminalAnswer::Done | TerminalAnswer::Noted(_) | TerminalAnswer::Act(_) => {
                self.at = self.at + 1;
                self.fresh = true;
                self.sent = 0;
            },
            TerminalAnswer::Repeat(_) => {
                self.fresh = false;
                self.sent = self.sent + 1;
            },
            TerminalAnswer::Wait | TerminalAnswer::Fail(_) | TerminalAnswer::FailShowing(_) => {
                self.fresh = false;
            },
        }
        Some(answer)
    }
}

/// What is said of a step that took too long.
pub open spec fn overdue(step: TerminalStep, paste: PasteState) -> Seq<char> {
    match step {
        TerminalStep::Await(text) | TerminalStep::AwaitShowing(text, ..) => {
            "fixture did not contain \""@ + text@ + "\""@
        },
        TerminalStep::AwaitInputBytes => "fixture did not contain \""@ + marker_of(
            "input-bytes:"@,
            INPUT_TEXT@,
        ) + "\""@,
        TerminalStep::AwaitMouse | TerminalStep::AwaitMouseBytes => "mouse fixture timed out"@,
        TerminalStep::AwaitScreen(_) => "render fixture timed out"@,
        TerminalStep::AwaitPaste(_) => match paste {
            PasteState::Pending { id } => "paste request "@ + decimal_text(id as nat)
                + " did not complete"@,
            _ => "no paste request is pending"@,
        },
        TerminalStep::AwaitBackpressure => {
            "blocked paste did not produce a bounded-writer warning"@
        },
        _ => "fixture did not produce the expected output"@,
    }
}

/// What is said of a step that took too long.
pub fn overdue_message(step: TerminalStep, paste: &PasteState) -> (r: String)
    ensures
        r@ == overdue(step, *paste),
{
    match step {
        TerminalStep::Await(text) | TerminalStep::AwaitShowing(text, ..) => concat3(
            "fixture did not contain \"",
            text,
            "\"",
        ),
        TerminalStep::AwaitInputBytes => {
            let marker = input_marker(&bytes_of(INPUT_TEXT));
            concat3("fixture did not contain \"", marker.as_str(), "\"")
        },
        TerminalStep::AwaitMouse | TerminalStep::AwaitMouseBytes => {
            "mouse fixture timed out".to_owned()
        },
        TerminalStep::AwaitScreen(_) => "render fixture timed out".to_owned(),
        TerminalStep::AwaitPaste(_) => match paste {
            PasteState::Pending { id } => {
                let number = decimal_u64(*id);
                concat3("paste request ", number.as_str(), " did not complete")
            },
            _ => "no paste request is pending".to_owned(),
        },
        TerminalStep::AwaitBackpressure => {
            "blocked paste did not produce a bounded-writer warning".to_owned()
        },
        _ => "fixture did not produce the expected output".to_owned(),
    }
}

/// Whether what the terminal shows is worth showing beside a step that took
/// too long: not where the step waits for a paste or for a warning.
pub fn overdue_shows(step: TerminalStep) -> (r: bool)
    ensures
        r == !(step is AwaitPaste || step is AwaitBackpressure),
{
    match step {
        TerminalStep::AwaitPaste(_) | TerminalStep::AwaitBackpressure => false,
        _ => true,
    }
}

/// The steps of the round-trip fixture.
pub open spec fn round_trip_steps() -> Seq<TerminalStep> {
    seq![
        TerminalStep::Resize(42, 12),
        TerminalStep::TypeText,
        TerminalStep::Press(KeyCode::Enter),
        TerminalStep::AwaitEcho,
    ]
}

/// Type one line into a child, and find it and the new size in its output.
pub fn run_fixture_round_trip(text: &str) -> (r: Result<TerminalScript, String>)
    ensures
        match r {
            Ok(script) => one_line(text@) && script@ == (ScriptView {
                steps: round_trip_steps(),
                at: 0,
                fresh: true,
                sent: 0,
                text: text@,
            }),
            Err(message) => !one_line(text@) && message@ == "fixture text must fit on one line"@,
        },
{
    match check_round_trip_text(text) {
        Err(message) => Err(message),
        Ok(_) => {
            let steps = vec![
                TerminalStep::Resize(42, 12),
                TerminalStep::TypeText,
                TerminalStep::Press(KeyCode::Enter),
                TerminalStep::AwaitEcho,
            ];
            proof {
                assert(steps@ =~= round_trip_steps());
            }
            Ok(TerminalScript::new(steps, text))
        },
    }
}

/// The steps of the input fixture.
pub open spec fn input_steps() -> Seq<TerminalStep> {
    seq![
        TerminalStep::Await("input-normal-ready"),
        TerminalStep::Press(KeyCode::Up),
        TerminalStep::Send("\n"),
        TerminalStep::AwaitShowing(
            "input-ready",
            "normal-bytes:1b5b41",
            true,
            "normal cursor mode did not produce CSI A",
        ),
        TerminalStep::PressInputKeys,
        TerminalStep::Focus(true),
        TerminalStep::Focus(false),
        TerminalStep::Send("\n"),
        TerminalStep::AwaitInputBytes,
    ]
}

/// Press every kind of key in both cursor modes, and find their bytes.
pub fn run_fixture_input() -> (r: TerminalScript)
    ensures
        r@ == (ScriptView { steps: input_steps(), at: 0, fresh: true, sent: 0, text: ""@ }),
{
    let steps = vec![
        TerminalStep::Await("input-normal-ready"),
        TerminalStep::Press(KeyCode::Up),
        TerminalStep::Send("\n"),
        TerminalStep::AwaitShowing(
            "input-ready",
            "normal-bytes:1b5b41",
            true,
            "normal cursor mode did not produce CSI A",
        ),
        TerminalStep::PressInputKeys,
        TerminalStep::Focus(true),
        TerminalStep::Focus(false),
        TerminalStep::Send("\n"),
        TerminalStep::AwaitInputBytes,
    ];
    proof {
        assert(steps@ =~= input_steps());
    }
    TerminalScript::new(steps, "")
}

/// The steps of the paste fixture.
pub open spec fn paste_steps() -> Seq<TerminalStep> {
    seq![
        TerminalStep::Await("fixture-normal-ready"),
        TerminalStep::Paste("normal-paste"),
        TerminalStep::AwaitPaste("normal"),
        TerminalStep::AwaitShowing(
            "normal-bytes:",
            "normal-bytes:6e6f726d616c2d7061737465",
            false,
            "normal paste bytes were changed",
        ),
        TerminalStep::Await("fixture-bracketed-ready"),
        TerminalStep::Paste("bracketed-paste"),
        TerminalStep::AwaitPaste("bracketed"),
        TerminalStep::AwaitShowing(
            "bracketed-bytes:",
            "bracketed-bytes:1b5b3230307e627261636b657465642d70617374651b5b3230317e",
            false,
            "bracketed paste markers or bytes were changed",
        ),
        TerminalStep::Await("fixture-oversized-ready"),
        TerminalStep::PasteOversized,
        TerminalStep::AwaitRefusal,
        TerminalStep::Send("SAFE"),
        TerminalStep::AwaitShowing(
            "safe-bytes:",
            "safe-bytes:53414645",
            false,
            "oversized paste was partly delivered",
        ),
        TerminalStep::Burst,
        TerminalStep::AwaitBackpressure,
    ]
}

/// Paste in both paste modes, too much, and into a blocked child.
pub fn run_fixture_paste() -> (r: TerminalScript)
    ensures
        r@ == (ScriptView { steps: paste_steps(), at: 0, fresh: true, sent: 0, text: ""@ }),
{
    let steps = vec![
        TerminalStep::Await("fixture-normal-ready"),
        TerminalStep::Paste("normal-paste"),
        TerminalStep::AwaitPaste("normal"),
        TerminalStep::AwaitShowing(
            "normal-bytes:",
            "normal-bytes:6e6f726d616c2d7061737465",
            false,
            "normal paste bytes were changed",
        ),
        TerminalStep::Await("fixture-bracketed-ready"),
        TerminalStep::Paste("bracketed-paste"),
        TerminalStep::AwaitPaste("bracketed"),
        TerminalStep::AwaitShowing(
            "bracketed-bytes:",
            "bracketed-bytes:1b5b3230307e627261636b657465642d70617374651b5b3230317e",
            false,
            "bracketed paste markers or bytes were changed",
        ),
        TerminalStep::Await("fixture-oversized-ready"),
        TerminalStep::PasteOversized,
        TerminalStep::AwaitRefusal,
        TerminalStep::Send("SAFE"),
        TerminalStep::AwaitShowing(
            "safe-bytes:",
            "safe-bytes:53414645",
            false,
            "oversized paste was partly delivered",
        ),
        TerminalStep::Burst,
        TerminalStep::AwaitBackpressure,
    ];
    proof {
        assert(steps@ =~= paste_steps());
    }
    TerminalScript::new(steps, "")
}

/// The steps of the rendering fixture.
pub open spec fn rendering_steps() -> Seq<TerminalStep> {
    seq![
        TerminalStep::AwaitScreen(ScreenPhase::Primary),
        TerminalStep::Press(KeyCode::Enter),
        TerminalStep::AwaitScreen(ScreenPhase::Alternate),
        TerminalStep::Press(KeyCode::Enter),
        TerminalStep::AwaitScreen(ScreenPhase::Restored),
        TerminalStep::Press(KeyCode::Enter),
        TerminalStep::AwaitScreen(ScreenPhase::Unwrapped),
        TerminalStep::Resize(8, 6),
        TerminalStep::AwaitScreen(ScreenPhase::Reflowed),
        TerminalStep::Resize(2, 1),
        TerminalStep::Resize(120, 40),
        TerminalStep::Resize(7, 5),
        TerminalStep::AwaitScreen(ScreenPhase::Resized),
    ]
}

/// Render styles, the alternate screen and wrapped text, and resize them.
pub fn run_fixture_rendering() -> (r: TerminalScript)
    ensures
        r@ == (ScriptView { steps: rendering_steps(), at: 0, fresh: true, sent: 0, text: ""@ }),
{
    let steps = vec![
        TerminalStep::AwaitScreen(ScreenPhase::Primary),
        TerminalStep::Press(KeyCode::Enter),
        TerminalStep::AwaitScreen(ScreenPhase::Alternate),
        TerminalStep::Press(KeyCode::Enter),
        TerminalStep::AwaitScreen(ScreenPhase::Restored),
        TerminalStep::Press(KeyCode::Enter),
        TerminalStep::AwaitScreen(ScreenPhase::Unwrapped),
        TerminalStep::Resize(8, 6),
        TerminalStep::AwaitScreen(ScreenPhase::Reflowed),
        TerminalStep::Resize(2, 1),
        TerminalStep::Resize(120, 40),
        TerminalStep::Resize(7, 5),
        TerminalStep::AwaitScreen(ScreenPhase::Resized),
    ];
    proof {
        assert(steps@ =~= rendering_steps());
    }
    TerminalScript::new(steps, "")
}

/// The steps of the mouse fixture. The child must see nothing of the first
/// gesture, which Stackhand owns.
pub open spec fn mouse_steps() -> Seq<TerminalStep> {
    seq![
        TerminalStep::AwaitMouse,
        TerminalStep::Mouse(MouseEventKind::Down(MouseButton::Left), 0, 0, true),
        TerminalStep::Mouse(MouseEventKind::Drag(MouseButton::Left), 1, 0, true),
        TerminalStep::Mouse(MouseEventKind::Up(MouseButton::Left), 1, 0, true),
        TerminalStep::Mouse(MouseEventKind::Down(MouseButton::Left), 2, 3, false),
        TerminalStep::Mouse(MouseEventKind::Up(MouseButton::Left), 2, 3, false),
        TerminalStep::Mouse(MouseEventKind::Moved, 3, 4, false),
        TerminalStep::Mouse(MouseEventKind::Down(MouseButton::Left), 4, 5, false),
        TerminalStep::Mouse(MouseEventKind::Drag(MouseButton::Left), 5, 6, false),
        TerminalStep::Mouse(MouseEventKind::Up(MouseButton::Left), 5, 6, false),
        TerminalStep::Mouse(MouseEventKind::ScrollUp, 6, 7, false),
        TerminalStep::Mouse(MouseEventKind::ScrollDown, 7, 8, false),
        TerminalStep::Mouse(MouseEventKind::ScrollLeft, 8, 9, false),
        TerminalStep::Mouse(MouseEventKind::ScrollRight, 9, 10, false),
        TerminalStep::Send("\n"),
        TerminalStep::AwaitMouseBytes,
    ]
}

/// Send every kind of mouse event, and find the bytes of those that the child
/// owns.
pub fn run_fixture_mouse() -> (r: TerminalScript)
    ensures
        r@ == (ScriptView { steps: mouse_steps(), at: 0, fresh: true, sent: 0, text: ""@ }),
{
    let steps = vec![
        TerminalStep::AwaitMouse,
        TerminalStep::Mouse(MouseEventKind::Down(MouseButton::Left), 0, 0, true),
        TerminalStep::Mouse(MouseEventKind::Drag(MouseButton::Left), 1, 0, true),
        TerminalStep::Mouse(MouseEventKind::Up(MouseButton::Left), 1, 0, true),
        TerminalStep::Mouse(MouseEventKind::Down(MouseButton::Left), 2, 3, false),
        TerminalStep::Mouse(MouseEventKind::Up(MouseButton::Left), 2, 3, false),
        TerminalStep::Mouse(MouseEventKind::Moved, 3, 4, false),
        TerminalStep::Mouse(MouseEventKind::Down(MouseButton::Left), 4, 5, false),
        TerminalStep::Mouse(MouseEventKind::Drag(MouseButton::Left), 5, 6, false),
        TerminalStep::Mouse(MouseEventKind::Up(MouseButton::Left), 5, 6, false),
        TerminalStep::Mouse(MouseEventKind::ScrollUp, 6, 7, false),
        TerminalStep::Mouse(MouseEventKind::ScrollDown, 7, 8, false),
        TerminalStep::Mouse(MouseEventKind::ScrollLeft, 8, 9, false),
        TerminalStep::Mouse(MouseEventKind::ScrollRight, 9, 10, false),
        TerminalStep::Send("\n"),
        TerminalStep::AwaitMouseBytes,
    ];
    proof {
        assert(steps@ =~= mouse_steps());
    }
    TerminalScript::new(steps, "")
}

/// A script keeps its steps and takes them in order: one look moves it by one
/// step at most, and a failure or a wait leaves it where it is.
pub proof fn terminal_steps_are_taken_in_order(script: ScriptView, sight: Sight)
    ensures
        script.next(sight).0.steps == script.steps,
        script.next(sight).0.text == script.text,
        script.at <= script.next(sight).0.at <= script.at + 1,
        script.next(sight).1 matches Some(AnswerView::Fail(_)) ==> script.next(sight).0.at
            == script.at,
        script.next(sight).1 == Some(AnswerView::Wait) ==> script.next(sight).0.at == script.at,
{
}

/// A burst sends no more than its limit of pastes before it is over.
pub proof fn bursts_are_bounded(script: ScriptView, sight: Sight)
    requires
        0 <= script.sent <= BURST_LIMIT,
    ensures
        0 <= script.next(sight).0.sent <= BURST_LIMIT,
{
}

/// What a step does not look at decides nothing: where a step reads no
/// events, the answer is the same whatever they are.
pub proof fn unread_events_decide_nothing(script: ScriptView, sight: Sight, other: Sight)
    requires
        0 <= script.at < script.steps.len(),
        !script.reads_events(),
        other.screen == sight.screen,
        other.paste == sight.paste,
    ensures
        script.next(sight) == script.next(other),
{
}

} // verus!
