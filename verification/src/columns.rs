//! Screen columns of a text line.
//!
//! A character takes the screen columns that `unicode-width` gives it. Control
//! characters and combining marks take none and stay with the character before
//! them.

use vstd::prelude::*;

use crate::text::{byte_length, characters, utf8_width};

#[allow(unused_imports)]
use crate::text::{byte_len, byte_start, byte_start_step};

verus! {

/// The columns that `unicode_width::UnicodeWidthChar::width` gives a character.
pub uninterp spec fn display_width(character: char) -> Option<usize>;

/// The columns of one character, from
/// `unicode_width::UnicodeWidthChar::width`. Printable ASCII takes one column
/// and the control characters take none at all; every other width is taken
/// over from the crate's tables without a further claim.
#[verifier::external_body]
fn char_width(character: char) -> (r: Option<usize>)
    ensures
        r == display_width(character),
        ' ' <= character && character < '\u{7f}' ==> r == Some(1usize),
        character < ' ' || ('\u{7f}' <= character && character < '\u{a0}') ==> r is None,
{
    unicode_width::UnicodeWidthChar::width(character)
}

/// The columns that a character takes on screen.
pub open spec fn cells(character: char) -> usize {
    match display_width(character) {
        Some(width) => width,
        None => 0,
    }
}

/// The columns of each character of a text.
pub open spec fn cells_of(text: Seq<char>) -> Seq<usize> {
    text.map_values(|character: char| cells(character))
}

/// The first character, from `from` on, that covers or follows a column
/// counted from its left edge.
pub open spec fn index_at_column(cells: Seq<usize>, column: int, from: int) -> int
    decreases cells.len() - from,
{
    if from < 0 || from >= cells.len() {
        cells.len() as int
    } else if column < cells[from] {
        from
    } else {
        index_at_column(cells, column - cells[from], from + 1)
    }
}

/// The first character, from `from` on, that takes a column of its own.
pub open spec fn after_marks(cells: Seq<usize>, from: int) -> int
    decreases cells.len() - from,
{
    if 0 <= from < cells.len() && cells[from] == 0 {
        after_marks(cells, from + 1)
    } else {
        from
    }
}

/// The byte for a column of a text whose characters take the given columns:
/// the start of the character under the column or, with `include_character`,
/// the end of that character and its marks. Beyond the text it is the end.
pub open spec fn byte_in_cells(
    text: Seq<char>,
    cells: Seq<usize>,
    column: int,
    include_character: bool,
) -> nat {
    let index = index_at_column(cells, column, 0);
    if index >= text.len() {
        byte_len(text)
    } else if include_character {
        byte_start(text, after_marks(cells, index + 1))
    } else {
        byte_start(text, index)
    }
}

/// The byte for a screen column of a text.
pub open spec fn byte_for_column(text: Seq<char>, column: int, include_character: bool) -> nat {
    byte_in_cells(text, cells_of(text), column, include_character)
}

/// A character of printable ASCII.
pub open spec fn printable(character: char) -> bool {
    ' ' <= character && character < '\u{7f}'
}

/// Whether every character is printable ASCII.
pub open spec fn all_printable(text: Seq<char>) -> bool {
    forall|i: int| 0 <= i < text.len() ==> printable(#[trigger] text[i])
}

/// The columns of each character of a text.
fn measure(text: &Vec<char>) -> (r: Vec<usize>)
    ensures
        r@ == cells_of(text@),
        forall|i: int| 0 <= i < text.len() && printable(text@[i]) ==> #[trigger] r@[i] == 1,
{
    let mut widths: Vec<usize> = Vec::new();
    let mut index: usize = 0;
    while index < text.len()
        invariant
            index <= text.len(),
            widths@ == cells_of(text@).take(index as int),
            forall|i: int| 0 <= i < index && printable(text@[i]) ==> #[trigger] widths@[i] == 1,
        decreases text.len() - index,
    {
        let width: usize = match char_width(text[index]) {
            Some(width) => width,
            None => 0,
        };
        widths.push(width);
        index = index + 1;
        proof {
            assert(cells_of(text@).take(index as int) =~= cells_of(text@).take(index - 1).push(
                cells_of(text@)[index - 1],
            ));
        }
    }
    proof {
        assert(cells_of(text@).take(index as int) =~= cells_of(text@));
    }
    widths
}

/// The byte for a column of a text whose characters take the given columns.
pub fn byte_at_cells(
    text: &Vec<char>,
    cells: &Vec<usize>,
    column: usize,
    include_character: bool,
) -> (r: usize)
    requires
        cells.len() == text.len(),
        byte_len(text@) <= usize::MAX,
    ensures
        r == byte_in_cells(text@, cells@, column as int, include_character),
        r <= byte_len(text@),
{
    let mut left: usize = column;
    let mut index: usize = 0;
    let mut byte: usize = 0;
    while index < text.len()
        invariant
            cells.len() == text.len(),
            byte_len(text@) <= usize::MAX,
            index <= text.len(),
            byte == byte_start(text@, index as int),
            index_at_column(cells@, column as int, 0) == index_at_column(
                cells@,
                left as int,
                index as int,
            ),
        decreases text.len() - index,
    {
        if left < cells[index] {
            proof {
                byte_start_step(text@, index as int);
            }
            if !include_character {
                return byte;
            }
            let mut end: usize = byte + utf8_width(text[index]);
            let mut next: usize = index + 1;
            while next < text.len() && cells[next] == 0
                invariant
                    cells.len() == text.len(),
                    byte_len(text@) <= usize::MAX,
                    index < next <= text.len(),
                    end == byte_start(text@, next as int),
                    end <= byte_len(text@),
                    after_marks(cells@, index + 1) == after_marks(cells@, next as int),
                decreases text.len() - next,
            {
                proof {
                    byte_start_step(text@, next as int);
                }
                end = end + utf8_width(text[next]);
                next = next + 1;
            }
            return end;
        }
        proof {
            byte_start_step(text@, index as int);
        }
        left = left - cells[index];
        byte = byte + utf8_width(text[index]);
        index = index + 1;
    }
    proof {
        assert(text@.take(index as int) =~= text@);
    }
    byte
}

proof fn single_columns(cells: Seq<usize>, column: int, from: int)
    requires
        0 <= from <= cells.len(),
        0 <= column,
        forall|i: int| 0 <= i < cells.len() ==> #[trigger] cells[i] == 1,
    ensures
        index_at_column(cells, column, from) == (if from + column < cells.len() {
            from + column
        } else {
            cells.len() as int
        }),
    decreases cells.len() - from,
{
    if from < cells.len() && column >= 1 {
        single_columns(cells, column - 1, from + 1);
    }
}

proof fn single_bytes(text: Seq<char>, index: int)
    requires
        all_printable(text),
        0 <= index <= text.len(),
    ensures
        byte_start(text, index) == index,
    decreases index,
{
    if index > 0 {
        single_bytes(text, index - 1);
        byte_start_step(text, index - 1);
        assert(printable(text[index - 1]));
    }
}

/// In a text whose characters take one column each, a column stands for the
/// character with its number: for that character's start or, with the
/// character, for its end. Columns beyond the text stand for the text's end.
pub proof fn columns_are_characters(text: Seq<char>, column: int)
    requires
        0 <= column,
        forall|i: int| 0 <= i < text.len() ==> cells(#[trigger] text[i]) == 1,
    ensures
        column < text.len() ==> byte_for_column(text, column, false) == byte_len(
            text.take(column),
        ),
        column < text.len() ==> byte_for_column(text, column, true) == byte_len(
            text.take(column + 1),
        ),
        column >= text.len() ==> byte_for_column(text, column, false) == byte_len(text),
        column >= text.len() ==> byte_for_column(text, column, true) == byte_len(text),
{
    let widths = cells_of(text);
    assert forall|i: int| 0 <= i < widths.len() implies #[trigger] widths[i] == 1 by {
        assert(widths[i] == cells(text[i]));
    }
    single_columns(widths, column, 0);
    if column + 1 < text.len() {
        assert(widths[column + 1] == 1);
    }
}

/// The byte for a screen column of a text. Wide and combining characters stay
/// whole, and in printable ASCII a column is a byte.
pub fn byte_at_column(text: &str, column: usize, include_character: bool) -> (r: usize)
    ensures
        r == byte_for_column(text@, column as int, include_character),
        r <= byte_len(text@),
        all_printable(text@) ==> r == (if column >= text@.len() {
            text@.len() as int
        } else if include_character {
            column + 1
        } else {
            column as int
        }),
{
    let _ = byte_length(text);
    let all = characters(text);
    let widths = measure(&all);
    proof {
        if all_printable(text@) {
            assert forall|i: int| 0 <= i < widths.len() implies #[trigger] widths@[i] == 1 by {
                assert(printable(all@[i]));
            }
            single_columns(widths@, column as int, 0);
            single_bytes(text@, text@.len() as int);
            assert(text@.take(text@.len() as int) =~= text@);
            if column < text@.len() {
                single_bytes(text@, column as int);
                single_bytes(text@, column + 1);
            }
        }
    }
    byte_at_cells(&all, &widths, column, include_character)
}

} // verus!
