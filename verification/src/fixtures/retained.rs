//! What the proofs look for in retained output and in consoles.

use vstd::prelude::*;

use super::checks::Verdict;
use crate::config::env::lines;
use crate::config::readiness::{number_of, only_digits};
use crate::scan::{contains, find, piece, split_once, stands, trim, Blank};
use crate::text::{byte_length, characters, concat2, decimal_usize, join, push_char};

#[allow(unused_imports)]
use super::checks::VerdictView;
#[allow(unused_imports)]
use crate::config::command::{all_digits, digits_value, is_digit};
#[allow(unused_imports)]
use crate::config::env::lines_of;
#[allow(unused_imports)]
use crate::output::occurrences;
#[allow(unused_imports)]
use crate::scan::{holds, split_first, trimmed, word_position};
#[allow(unused_imports)]
use crate::text::{byte_len, decimal_text, digit_character, joined, texts};

verus! {

/// Where a Process wrote a text.
#[derive(Clone, Copy, Debug, PartialEq, Eq, Structural)]
pub enum OutputStream {
    Stdout,
    Stderr,
}

/// One piece of retained output.
#[derive(Clone, Debug, PartialEq, Eq)]
pub enum RetainedChunk {
    /// The begin or the end of a Run.
    Marker { run_id: u64, label: String },
    Data { run_id: u64, stream: OutputStream, text: String },
}

impl RetainedChunk {
    /// The bytes that the chunk holds.
    pub open spec fn size(self) -> nat {
        match self {
            RetainedChunk::Marker { label, .. } => byte_len(label@),
            RetainedChunk::Data { text, .. } => byte_len(text@),
        }
    }
}

/// The bytes of the first `count` chunks.
pub open spec fn retained_size(chunks: Seq<RetainedChunk>, count: int) -> nat
    decreases count,
{
    if count <= 0 || count > chunks.len() {
        0
    } else {
        retained_size(chunks, count - 1) + chunks[count - 1].size()
    }
}

proof fn retained_size_grows(chunks: Seq<RetainedChunk>, early: int, count: int)
    requires
        0 <= early <= count <= chunks.len(),
    ensures
        retained_size(chunks, early) <= retained_size(chunks, count),
    decreases count,
{
    if early < count {
        retained_size_grows(chunks, early, count - 1);
    }
}

/// The bytes that an output retains.
pub fn retained_bytes(chunks: &Vec<RetainedChunk>) -> (r: usize)
    requires
        retained_size(chunks@, chunks@.len() as int) <= usize::MAX,
    ensures
        r == retained_size(chunks@, chunks@.len() as int),
{
    let mut total: usize = 0;
    let mut index: usize = 0;
    while index < chunks.len()
        invariant
            index <= chunks.len(),
            total == retained_size(chunks@, index as int),
            retained_size(chunks@, chunks@.len() as int) <= usize::MAX,
        decreases chunks.len() - index,
    {
        proof {
            retained_size_grows(chunks@, index + 1, chunks@.len() as int);
        }
        let size: usize = match &chunks[index] {
            RetainedChunk::Marker { label, .. } => byte_length(label.as_str()),
            RetainedChunk::Data { text, .. } => byte_length(text.as_str()),
        };
        total = total + size;
        index = index + 1;
    }
    total
}

/// Whether a chunk marks a Run.
pub open spec fn marks(chunk: RetainedChunk, run: u64) -> bool {
    chunk matches RetainedChunk::Marker { run_id, .. } && run_id == run
}

/// Whether a chunk holds a text that a Run wrote to a stream.
pub open spec fn proves(
    chunk: RetainedChunk,
    run: u64,
    wanted: OutputStream,
    needle: Seq<char>,
) -> bool {
    chunk matches RetainedChunk::Data { run_id, stream, text } && run_id == run && stream == wanted
        && holds(text@, needle)
}

/// Whether a chunk of Process output holds a text.
pub open spec fn says_somewhere(chunk: RetainedChunk, needle: Seq<char>) -> bool {
    chunk matches RetainedChunk::Data { text, .. } && holds(text@, needle)
}

/// Whether a Run is marked.
pub open spec fn any_marks(chunks: Seq<RetainedChunk>, run: u64) -> bool {
    exists|i: int| 0 <= i < chunks.len() && marks(#[trigger] chunks[i], run)
}

/// Whether a text of a Run is retained.
pub open spec fn any_proves(
    chunks: Seq<RetainedChunk>,
    run: u64,
    stream: OutputStream,
    needle: Seq<char>,
) -> bool {
    exists|i: int| 0 <= i < chunks.len() && proves(#[trigger] chunks[i], run, stream, needle)
}

/// Whether a text is retained.
pub open spec fn any_says(chunks: Seq<RetainedChunk>, needle: Seq<char>) -> bool {
    exists|i: int| 0 <= i < chunks.len() && says_somewhere(#[trigger] chunks[i], needle)
}

/// Whether the marker of a Run is retained.
pub fn has_marker(chunks: &Vec<RetainedChunk>, run: u64) -> (r: bool)
    ensures
        r == any_marks(chunks@, run),
{
    let mut index: usize = 0;
    while index < chunks.len()
        invariant
            index <= chunks.len(),
            forall|i: int| 0 <= i < index ==> !marks(#[trigger] chunks@[i], run),
        decreases chunks.len() - index,
    {
        if let RetainedChunk::Marker { run_id, .. } = &chunks[index] {
            if *run_id == run {
                proof {
                    assert(marks(chunks@[index as int], run));
                }
                return true;
            }
        }
        index = index + 1;
    }
    false
}

/// Whether a line of a Run proves what it was to print.
pub fn has_proof(
    chunks: &Vec<RetainedChunk>,
    run: u64,
    wanted: OutputStream,
    needle: &str,
) -> (r: bool)
    ensures
        r == any_proves(chunks@, run, wanted, needle@),
{
    let mut index: usize = 0;
    while index < chunks.len()
        invariant
            index <= chunks.len(),
            forall|i: int|
                0 <= i < index ==> !proves(#[trigger] chunks@[i], run, wanted, needle@),
        decreases chunks.len() - index,
    {
        if let RetainedChunk::Data { run_id, stream, text } = &chunks[index] {
            if *run_id == run && *stream == wanted && contains(text.as_str(), needle) {
                proof {
                    assert(proves(chunks@[index as int], run, wanted, needle@));
                }
                return true;
            }
        }
        index = index + 1;
    }
    false
}

/// Whether a text is retained in one chunk.
pub fn has_text(chunks: &Vec<RetainedChunk>, needle: &str) -> (r: bool)
    ensures
        r == any_says(chunks@, needle@),
{
    let mut index: usize = 0;
    while index < chunks.len()
        invariant
            index <= chunks.len(),
            forall|i: int| 0 <= i < index ==> !says_somewhere(#[trigger] chunks@[i], needle@),
        decreases chunks.len() - index,
    {
        if let RetainedChunk::Data { text, .. } = &chunks[index] {
            if contains(text.as_str(), needle) {
                proof {
                    assert(says_somewhere(chunks@[index as int], needle@));
                }
                return true;
            }
        }
        index = index + 1;
    }
    false
}

/// Whether the proof of a Run is retained: its marker and its text.
pub fn retained_text(
    chunks: &Vec<RetainedChunk>,
    stream: OutputStream,
    needle: &str,
    run: u64,
) -> (r: bool)
    ensures
        r == (any_marks(chunks@, run) && any_proves(chunks@, run, stream, needle@)),
{
    has_marker(chunks, run) && has_proof(chunks, run, stream, needle)
}

/// The markers among the first `count` chunks.
pub open spec fn markers(chunks: Seq<RetainedChunk>, count: int) -> nat
    decreases count,
{
    if count <= 0 || count > chunks.len() {
        0
    } else if chunks[count - 1] is Marker {
        markers(chunks, count - 1) + 1
    } else {
        markers(chunks, count - 1)
    }
}

proof fn markers_are_bounded(chunks: Seq<RetainedChunk>, count: int)
    requires
        0 <= count <= chunks.len(),
    ensures
        markers(chunks, count) <= count,
    decreases count,
{
    if count > 0 {
        markers_are_bounded(chunks, count - 1);
    }
}

/// How many markers are retained.
pub fn marker_count(chunks: &Vec<RetainedChunk>) -> (r: usize)
    ensures
        r == markers(chunks@, chunks@.len() as int),
{
    let mut found: usize = 0;
    let mut index: usize = 0;
    while index < chunks.len()
        invariant
            index <= chunks.len(),
            found == markers(chunks@, index as int),
        decreases chunks.len() - index,
    {
        proof {
            markers_are_bounded(chunks@, index as int);
        }
        if let RetainedChunk::Marker { .. } = &chunks[index] {
            found = found + 1;
        }
        index = index + 1;
    }
    found
}

/// Checks that the noisy Process stays in its bound and is heard.
pub open spec fn noisy_verdict(chunks: Seq<RetainedChunk>, limit: int) -> VerdictView {
    let size = retained_size(chunks, chunks.len() as int);
    if size > limit {
        VerdictView::Failed(
            "noisy Process output exceeded its bound: "@ + decimal_text(size),
        )
    } else if !any_says(chunks, "fixture-noisy"@) {
        VerdictView::Failed("noisy Process output did not reach retained history"@)
    } else {
        VerdictView::Met
    }
}

/// Checks that the noisy Process stays in its bound and is heard.
pub fn prove_noisy_output(chunks: &Vec<RetainedChunk>, limit: usize) -> (r: Verdict)
    requires
        retained_size(chunks@, chunks@.len() as int) <= usize::MAX,
    ensures
        r@ == noisy_verdict(chunks@, limit as int),
{
    let bytes: usize = retained_bytes(chunks);
    if bytes > limit {
        let shown = decimal_usize(bytes);
        return Verdict::Failed(
            concat2("noisy Process output exceeded its bound: ", shown.as_str()),
        );
    }
    if !has_text(chunks, "fixture-noisy") {
        return Verdict::failed("noisy Process output did not reach retained history");
    }
    Verdict::Met
}

/// Checks that every Run of the budget Process keeps its marker.
pub open spec fn restart_verdict(chunks: Seq<RetainedChunk>, limit: int) -> VerdictView {
    if markers(chunks, chunks.len() as int) < 3 {
        VerdictView::Failed("restart output lost Run boundaries"@)
    } else if retained_size(chunks, chunks.len() as int) > limit {
        VerdictView::Failed("restart output exceeded its bound"@)
    } else {
        VerdictView::Met
    }
}

/// Checks that every Run of the budget Process keeps its marker.
pub fn prove_restart_output(chunks: &Vec<RetainedChunk>, limit: usize) -> (r: Verdict)
    requires
        retained_size(chunks@, chunks@.len() as int) <= usize::MAX,
    ensures
        r@ == restart_verdict(chunks@, limit as int),
{
    if marker_count(chunks) < 3 {
        return Verdict::failed("restart output lost Run boundaries");
    }
    if retained_bytes(chunks) > limit {
        return Verdict::failed("restart output exceeded its bound");
    }
    Verdict::Met
}

/// The texts of Process output among the first `count` chunks.
pub open spec fn data_texts(chunks: Seq<RetainedChunk>, count: int) -> Seq<Seq<char>>
    decreases count,
{
    if count <= 0 || count > chunks.len() {
        Seq::empty()
    } else {
        match chunks[count - 1] {
            RetainedChunk::Data { text, .. } => data_texts(chunks, count - 1).push(text@),
            RetainedChunk::Marker { .. } => data_texts(chunks, count - 1),
        }
    }
}

/// The retained output of a Process as one text.
pub fn module_text(chunks: &Vec<RetainedChunk>) -> (r: String)
    ensures
        r@ == joined(data_texts(chunks@, chunks@.len() as int), "\n"@),
{
    let mut found: Vec<String> = Vec::new();
    let mut index: usize = 0;
    proof {
        assert(texts(found@) =~= Seq::<Seq<char>>::empty());
    }
    while index < chunks.len()
        invariant
            index <= chunks.len(),
            texts(found@) == data_texts(chunks@, index as int),
        decreases chunks.len() - index,
    {
        let ghost before = texts(found@);
        if let RetainedChunk::Data { text, .. } = &chunks[index] {
            found.push(text.clone());
            proof {
                assert(texts(found@) =~= before.push(text@));
            }
        }
        index = index + 1;
    }
    join(&found, "\n")
}

/// A number as it is read: digits, with a plus before them or not.
pub open spec fn number_reading(text: Seq<char>) -> Option<u32> {
    let digits = if text.len() > 0 && text[0] == '+' {
        text.skip(1)
    } else {
        text
    };
    if all_digits(digits) && digits_value(digits) <= u32::MAX {
        Some(digits_value(digits) as u32)
    } else {
        None
    }
}

fn read_number(letters: &Vec<char>) -> (r: Option<u32>)
    ensures
        r == (if all_digits(letters@) && digits_value(letters@) <= u32::MAX {
            Some(digits_value(letters@) as u32)
        } else {
            None
        }),
{
    if !only_digits(letters) {
        return None;
    }
    match number_of(letters) {
        Some(number) => if number <= u32::MAX as u128 {
            Some(number as u32)
        } else {
            None
        },
        None => None,
    }
}

/// A number as it is read: digits, with a plus before them or not.
pub fn parse_number(text: &str) -> (r: Option<u32>)
    ensures
        r == number_reading(text@),
{
    let count: usize = text.unicode_len();
    if count > 0 && text.get_char(0) == '+' {
        let rest = piece(text, 1, count);
        proof {
            assert(text@.subrange(1, count as int) =~= text@.skip(1));
        }
        let letters = characters(rest.as_str());
        read_number(&letters)
    } else {
        let letters = characters(text);
        read_number(&letters)
    }
}

/// The number that follows a prefix on its line.
pub open spec fn marked_number(text: Seq<char>, prefix: Seq<char>) -> Option<u32> {
    match split_first(text, prefix) {
        None => None,
        Some((_, after)) => {
            let part = match split_first(after, prefix) {
                Some((before, _)) => before,
                None => after,
            };
            if lines_of(part).len() == 0 {
                None
            } else {
                number_reading(trimmed(lines_of(part)[0], Blank::White))
            }
        },
    }
}

fn find_marked_number(text: &str, prefix: &str) -> (r: Option<u32>)
    ensures
        r == marked_number(text@, prefix@),
{
    let after = match split_once(text, prefix) {
        Some((_, after)) => after,
        None => {
            return None;
        },
    };
    let part = match split_once(after.as_str(), prefix) {
        Some((before, _)) => before,
        None => after,
    };
    let found = lines(part.as_str());
    if found.len() == 0 {
        return None;
    }
    proof {
        assert(texts(found@)[0] == found@[0]@);
    }
    let shown = trim(found[0].as_str(), Blank::White);
    parse_number(shown.as_str())
}

/// The first process identity that follows a prefix, from chunk `from` on.
pub open spec fn pid_in(chunks: Seq<RetainedChunk>, prefix: Seq<char>, from: int) -> Option<u32>
    decreases chunks.len() - from,
{
    if from < 0 || from >= chunks.len() {
        None
    } else {
        match chunks[from] {
            RetainedChunk::Data { text, .. } => match marked_number(text@, prefix) {
                Some(pid) => Some(pid),
                None => pid_in(chunks, prefix, from + 1),
            },
            RetainedChunk::Marker { .. } => pid_in(chunks, prefix, from + 1),
        }
    }
}

/// The process identity that a Process wrote after a prefix.
pub fn retained_pid(chunks: &Vec<RetainedChunk>, prefix: &str) -> (r: Option<u32>)
    ensures
        r == pid_in(chunks@, prefix@, 0),
{
    let mut index: usize = 0;
    while index < chunks.len()
        invariant
            index <= chunks.len(),
            pid_in(chunks@, prefix@, 0) == pid_in(chunks@, prefix@, index as int),
        decreases chunks.len() - index,
    {
        if let RetainedChunk::Data { text, .. } = &chunks[index] {
            if let Some(pid) = find_marked_number(text.as_str(), prefix) {
                return Some(pid);
            }
        }
        index = index + 1;
    }
    None
}

/// The end of the digits that begin at a character.
pub open spec fn digits_end(text: Seq<char>, from: int) -> int
    decreases text.len() - from,
{
    if 0 <= from < text.len() && is_digit(text[from]) {
        digits_end(text, from + 1)
    } else {
        from
    }
}

proof fn digits_end_bounds(text: Seq<char>, from: int)
    requires
        0 <= from <= text.len(),
    ensures
        from <= digits_end(text, from) <= text.len(),
    decreases text.len() - from,
{
    if from < text.len() && is_digit(text[from]) {
        digits_end_bounds(text, from + 1);
    }
}

/// The counter that stands at a character.
pub open spec fn tick_at(text: Seq<char>, at: int) -> Option<u32> {
    number_reading(text.subrange(at, digits_end(text, at)))
}

fn read_tick(letters: &Vec<char>, at: usize) -> (r: Option<u32>)
    requires
        at <= letters.len(),
    ensures
        r == tick_at(letters@, at as int),
{
    let mut digits: Vec<char> = Vec::new();
    let mut end: usize = at;
    proof {
        digits_end_bounds(letters@, at as int);
    }
    while end < letters.len() && '0' <= letters[end] && letters[end] <= '9'
        invariant
            at <= end <= letters.len(),
            digits@ == letters@.subrange(at as int, end as int),
            digits_end(letters@, at as int) == digits_end(letters@, end as int),
            forall|i: int| 0 <= i < digits@.len() ==> is_digit(#[trigger] digits@[i]),
        decreases letters.len() - end,
    {
        digits.push(letters[end]);
        proof {
            assert(digits@ =~= letters@.subrange(at as int, end + 1));
        }
        end = end + 1;
    }
    proof {
        if digits@.len() > 0 {
            assert(is_digit(digits@[0]));
        }
    }
    read_number(&digits)
}

fn positions(letters: &Vec<char>, word: &Vec<char>) -> (r: Vec<usize>)
    requires
        word.len() > 0,
    ensures
        r@.map_values(|at: usize| at as int) == occurrences(letters@, word@, 0),
        forall|i: int| 0 <= i < r@.len() ==> (#[trigger] r@[i]) + word@.len() <= letters@.len(),
{
    let mut found: Vec<usize> = Vec::new();
    let mut at: usize = 0;
    proof {
        assert(found@.map_values(|at: usize| at as int) + occurrences(letters@, word@, 0)
            =~= occurrences(letters@, word@, 0));
    }
    while at < letters.len()
        invariant
            at <= letters.len(),
            word.len() > 0,
            found@.map_values(|at: usize| at as int) + occurrences(letters@, word@, at as int)
                == occurrences(letters@, word@, 0),
            forall|i: int|
                0 <= i < found@.len() ==> (#[trigger] found@[i]) + word@.len() <= letters@.len(),
        decreases letters.len() - at,
    {
        let ghost before = found@.map_values(|at: usize| at as int);
        if stands(letters, word, at) {
            found.push(at);
            proof {
                let after = occurrences(letters@, word@, at + word@.len());
                assert(found@.map_values(|at: usize| at as int) =~= before.push(at as int));
                assert(before.push(at as int) + after =~= before + (seq![at as int] + after));
            }
            at = at + word.len();
        } else {
            at = at + 1;
        }
    }
    proof {
        assert(occurrences(letters@, word@, at as int) =~= Seq::<int>::empty());
        assert(found@.map_values(|at: usize| at as int) + Seq::<int>::empty()
            =~= found@.map_values(|at: usize| at as int));
    }
    found
}

/// The larger of two optional counters.
pub open spec fn larger(a: Option<u32>, b: Option<u32>) -> Option<u32> {
    match (a, b) {
        (Some(a), Some(b)) => if a >= b {
            Some(a)
        } else {
            Some(b)
        },
        (Some(a), None) => Some(a),
        (None, b) => b,
    }
}

/// The highest counter at the first `count` places.
pub open spec fn highest(text: Seq<char>, places: Seq<int>, width: int, count: int) -> Option<u32>
    decreases count,
{
    if count <= 0 || count > places.len() {
        None
    } else {
        larger(
            highest(text, places, width, count - 1),
            tick_at(text, places[count - 1] + width),
        )
    }
}

/// The highest counter that follows a prefix in a flattened view.
pub open spec fn max_tick_in(text: Seq<char>, prefix: Seq<char>) -> Option<u32> {
    let places = occurrences(text, prefix, 0);
    highest(text, places, prefix.len() as int, places.len() as int)
}

/// The highest counter that follows a prefix in a flattened view.
pub fn max_tick(text: &str, prefix: &str) -> (r: Option<u32>)
    requires
        prefix@.len() > 0,
    ensures
        r == max_tick_in(text@, prefix@),
{
    let letters = characters(text);
    let word = characters(prefix);
    let found = positions(&letters, &word);
    let ghost places = found@.map_values(|at: usize| at as int);
    let width: usize = word.len();
    let mut best: Option<u32> = None;
    let mut index: usize = 0;
    while index < found.len()
        invariant
            index <= found.len(),
            letters@ == text@,
            width == prefix@.len(),
            places == found@.map_values(|at: usize| at as int),
            best == highest(text@, places, width as int, index as int),
            forall|i: int|
                0 <= i < found@.len() ==> (#[trigger] found@[i]) + width <= letters@.len(),
        decreases found.len() - index,
    {
        let next = read_tick(&letters, found[index] + width);
        best = match (best, next) {
            (Some(a), Some(b)) => if a >= b {
                Some(a)
            } else {
                Some(b)
            },
            (Some(a), None) => Some(a),
            (None, b) => b,
        };
        index = index + 1;
    }
    best
}

/// The latest counter that follows a prefix, whatever came before.
pub open spec fn last_tick_in(text: Seq<char>, prefix: Seq<char>) -> Option<u32> {
    let places = occurrences(text, prefix, 0);
    if places.len() == 0 {
        None
    } else {
        tick_at(text, places.last() + prefix.len())
    }
}

/// The latest counter that follows a prefix, regardless of older counters
/// retained from earlier Runs.
pub fn last_tick(text: &str, prefix: &str) -> (r: Option<u32>)
    requires
        prefix@.len() > 0,
    ensures
        r == last_tick_in(text@, prefix@),
{
    let letters = characters(text);
    let word = characters(prefix);
    let found = positions(&letters, &word);
    let ghost places = found@.map_values(|at: usize| at as int);
    if found.len() == 0 {
        return None;
    }
    let last: usize = found[found.len() - 1];
    proof {
        assert(places.last() == last);
        assert(found@[found@.len() - 1] + word@.len() <= letters@.len());
        assert(letters.len() == letters@.len());
    }
    read_tick(&letters, last + word.len())
}

/// A hexadecimal digit.
pub open spec fn is_hex_digit(character: char) -> bool {
    is_digit(character) || ('a' <= character && character <= 'f') || ('A' <= character && character
        <= 'F')
}

/// The end of the hexadecimal digits that begin at a character.
pub open spec fn hex_end(text: Seq<char>, from: int) -> int
    decreases text.len() - from,
{
    if 0 <= from < text.len() && is_hex_digit(text[from]) {
        hex_end(text, from + 1)
    } else {
        from
    }
}

proof fn hex_end_bounds(text: Seq<char>, from: int)
    requires
        0 <= from <= text.len(),
    ensures
        from <= hex_end(text, from) <= text.len(),
    decreases text.len() - from,
{
    if from < text.len() && is_hex_digit(text[from]) {
        hex_end_bounds(text, from + 1);
    }
}

/// Whether the second input line that a child reports carries an interrupt.
pub open spec fn second_line_interrupted(text: Seq<char>) -> bool {
    match word_position(text, "input-hex-2:"@, 0) {
        None => false,
        Some(at) => {
            let start = at + "input-hex-2:"@.len();
            holds(text.subrange(start, hex_end(text, start)), "03"@)
        },
    }
}

/// Whether the second flushed input line of the focused fixture child
/// carries the interrupt byte, whatever terminator the Enter key encoded.
pub fn second_input_line_has_zero_three(text: &str) -> (r: bool)
    ensures
        r == second_line_interrupted(text@),
{
    let label = "input-hex-2:";
    let at: usize = match find(text, label) {
        Some(at) => at,
        None => {
            return false;
        },
    };
    let letters = characters(text);
    proof {
        assert(letters.len() == text@.len());
    }
    let start: usize = at + label.unicode_len();
    let mut end: usize = start;
    proof {
        hex_end_bounds(text@, start as int);
    }
    while end < letters.len() && (('0' <= letters[end] && letters[end] <= '9') || ('a'
        <= letters[end] && letters[end] <= 'f') || ('A' <= letters[end] && letters[end] <= 'F'))
        invariant
            letters@ == text@,
            start <= end <= letters.len(),
            hex_end(text@, start as int) == hex_end(text@, end as int),
        decreases letters.len() - end,
    {
        end = end + 1;
    }
    let hex = piece(text, start, end);
    contains(hex.as_str(), "03")
}

/// The character of a hexadecimal digit.
pub open spec fn hex_character(digit: int) -> char {
    if digit < 10 {
        digit_character(digit)
    } else if digit == 10 {
        'a'
    } else if digit == 11 {
        'b'
    } else if digit == 12 {
        'c'
    } else if digit == 13 {
        'd'
    } else if digit == 14 {
        'e'
    } else {
        'f'
    }
}

/// The first `count` bytes in hexadecimal digits.
pub open spec fn hex_text(bytes: Seq<u8>, count: int) -> Seq<char>
    decreases count,
{
    if count <= 0 || count > bytes.len() {
        Seq::empty()
    } else {
        hex_text(bytes, count - 1) + seq![
            hex_character(bytes[count - 1] as int / 16),
            hex_character(bytes[count - 1] as int % 16),
        ]
    }
}

fn hex_digit(digit: u8) -> (r: char)
    requires
        digit < 16,
    ensures
        r == hex_character(digit as int),
{
    if digit == 0 {
        '0'
    } else if digit == 1 {
        '1'
    } else if digit == 2 {
        '2'
    } else if digit == 3 {
        '3'
    } else if digit == 4 {
        '4'
    } else if digit == 5 {
        '5'
    } else if digit == 6 {
        '6'
    } else if digit == 7 {
        '7'
    } else if digit == 8 {
        '8'
    } else if digit == 9 {
        '9'
    } else if digit == 10 {
        'a'
    } else if digit == 11 {
        'b'
    } else if digit == 12 {
        'c'
    } else if digit == 13 {
        'd'
    } else if digit == 14 {
        'e'
    } else {
        'f'
    }
}

/// Bytes in hexadecimal digits.
pub fn bytes_to_hex(bytes: &Vec<u8>) -> (r: String)
    ensures
        r@ == hex_text(bytes@, bytes@.len() as int),
{
    let mut shown = String::new();
    let mut index: usize = 0;
    while index < bytes.len()
        invariant
            index <= bytes.len(),
            shown@ == hex_text(bytes@, index as int),
        decreases bytes.len() - index,
    {
        let ghost before = shown@;
        let high = hex_digit(bytes[index] / 16);
        let low = hex_digit(bytes[index] % 16);
        push_char(&mut shown, high);
        push_char(&mut shown, low);
        proof {
            assert(shown@ =~= before + seq![high, low]);
        }
        index = index + 1;
    }
    shown
}

} // verus!
