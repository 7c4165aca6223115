//! Scrollbar geometry: where the thumb stands on its track, and which position
//! a place on the track stands for.

use vstd::prelude::*;

verus! {

/// The range that a scrollbar shows.
#[derive(Clone, Copy, Debug, PartialEq, Eq, Structural)]
pub struct ConsoleScrollbar {
    /// The first visible row.
    pub position: usize,
    /// The number of positions.
    pub content_length: usize,
    /// The number of visible rows.
    pub viewport_length: usize,
}

/// `a - b`, or 0 below that.
pub open spec fn less(a: int, b: int) -> int {
    if a >= b {
        a - b
    } else {
        0
    }
}

/// The smaller number.
pub open spec fn smaller(a: int, b: int) -> int {
    if a <= b {
        a
    } else {
        b
    }
}

/// A number cut off at the largest `usize`.
pub open spec fn capped(a: int) -> int {
    smaller(a, usize::MAX as int)
}

/// `value` of `source` parts, as parts of `target`, rounded to the nearest.
pub open spec fn rounded_part(value: int, target: int, source: int) -> int {
    if source == 0 {
        0
    } else {
        (value * target + source / 2) / source
    }
}

/// `value` of `source` parts, as parts of `target`, rounded down.
pub open spec fn whole_part(value: int, target: int, source: int) -> int {
    if source == 0 {
        0
    } else {
        (value * target) / source
    }
}

/// The first row and the number of rows of the thumb on a track.
pub open spec fn thumb(scrollbar: ConsoleScrollbar, track_rows: int) -> (int, int) {
    let max_position = less(scrollbar.content_length as int, 1);
    let position = smaller(scrollbar.position as int, max_position);
    let total = capped(max_position + scrollbar.viewport_length);
    if track_rows == 0 {
        (0, 0)
    } else if total == 0 {
        (0, track_rows)
    } else {
        let rounded = rounded_part(scrollbar.viewport_length as int, track_rows, total);
        let length = if rounded < 1 {
            1
        } else {
            smaller(rounded, track_rows)
        };
        (smaller(rounded_part(position, track_rows, total), track_rows - length), length)
    }
}

/// The position that a thumb stands for when it starts at a row of the track.
pub open spec fn dragged_position(
    scrollbar: ConsoleScrollbar,
    track_rows: int,
    thumb_start: int,
) -> int {
    let last_start = less(track_rows, thumb(scrollbar, track_rows).1);
    whole_part(
        smaller(thumb_start, last_start),
        less(scrollbar.content_length as int, 1),
        last_start,
    )
}

proof fn product_fits(a: usize, b: usize)
    ensures
        0 <= a * b <= 0xffff_ffff_ffff_ffff * 0xffff_ffff_ffff_ffff,
{
    assert(a <= 0xffff_ffff_ffff_ffff && b <= 0xffff_ffff_ffff_ffff);
    assert(0 <= a * b <= 0xffff_ffff_ffff_ffff * 0xffff_ffff_ffff_ffff) by (nonlinear_arith)
        requires
            0 <= a <= 0xffff_ffff_ffff_ffff,
            0 <= b <= 0xffff_ffff_ffff_ffff,
    ;
}

/// A part of a whole is at most the whole of the target.
proof fn part_is_bounded(value: int, target: int, source: int)
    requires
        0 <= value <= source,
        0 <= target,
        source > 0,
    ensures
        0 <= (value * target) / source <= target,
        0 <= (value * target + source / 2) / source <= target,
{
    assert(0 <= (value * target) / source <= target) by (nonlinear_arith)
        requires
            0 <= value <= source,
            0 <= target,
            source > 0,
    ;
    assert(value * target <= source * target) by (nonlinear_arith)
        requires
            0 <= value <= source,
            0 <= target,
    ;
    assert(0 <= value * target) by (nonlinear_arith)
        requires
            0 <= value,
            0 <= target,
    ;
    let half = source / 2;
    assert((source * target + half) / source == target) by (nonlinear_arith)
        requires
            source > 0,
            0 <= half < source,
    ;
    vstd::arithmetic::div_mod::lemma_div_is_ordered(
        value * target + half,
        source * target + half,
        source,
    );
    assert(0 <= (value * target + half) / source) by (nonlinear_arith)
        requires
            0 <= value * target + half,
            source > 0,
    ;
}

fn rounded_scale(value: usize, target: usize, source: usize) -> (r: usize)
    requires
        value <= source,
    ensures
        r == rounded_part(value as int, target as int, source as int),
        r <= target,
{
    if source == 0 {
        return 0;
    }
    proof {
        product_fits(value, target);
        part_is_bounded(value as int, target as int, source as int);
    }
    let numerator: u128 = value as u128 * target as u128;
    ((numerator + source as u128 / 2) / source as u128) as usize
}

/// `value` of `source` parts, as parts of `target`, rounded down.
pub fn scale(value: usize, target: usize, source: usize) -> (r: usize)
    requires
        value <= source,
    ensures
        r == whole_part(value as int, target as int, source as int),
        r <= target,
{
    if source == 0 {
        return 0;
    }
    proof {
        product_fits(value, target);
        part_is_bounded(value as int, target as int, source as int);
    }
    ((value as u128 * target as u128) / source as u128) as usize
}

/// The first row and the number of rows of the thumb on a track. Pointer hit
/// testing uses the same rounded length and clamped start as the drawn
/// scrollbar.
pub fn scrollbar_thumb(scrollbar: ConsoleScrollbar, track_rows: usize) -> (r: (usize, usize))
    ensures
        (r.0 as int, r.1 as int) == thumb(scrollbar, track_rows as int),
        r.0 + r.1 <= track_rows,
        track_rows > 0 ==> r.1 >= 1,
{
    if track_rows == 0 {
        return (0, 0);
    }
    let max_position: usize = scrollbar.content_length.saturating_sub(1);
    let position: usize = if scrollbar.position <= max_position {
        scrollbar.position
    } else {
        max_position
    };
    let total_length: usize = max_position.saturating_add(scrollbar.viewport_length);
    if total_length == 0 {
        return (0, track_rows);
    }
    let rounded: usize = rounded_scale(scrollbar.viewport_length, track_rows, total_length);
    let thumb_length: usize = if rounded < 1 {
        1
    } else {
        rounded
    };
    let rounded_start: usize = rounded_scale(position, track_rows, total_length);
    let last_start: usize = track_rows - thumb_length;
    let thumb_start: usize = if rounded_start <= last_start {
        rounded_start
    } else {
        last_start
    };
    (thumb_start, thumb_length)
}

/// The position that a thumb stands for when it starts at a row of the track.
pub fn position_for_thumb(
    scrollbar: ConsoleScrollbar,
    track_rows: usize,
    thumb_start: usize,
) -> (r: usize)
    ensures
        r == dragged_position(scrollbar, track_rows as int, thumb_start as int),
        r <= less(scrollbar.content_length as int, 1),
{
    let (_, thumb_length) = scrollbar_thumb(scrollbar, track_rows);
    let last_start: usize = track_rows.saturating_sub(thumb_length);
    let max_position: usize = scrollbar.content_length.saturating_sub(1);
    let start: usize = if thumb_start <= last_start {
        thumb_start
    } else {
        last_start
    };
    scale(start, max_position, last_start)
}

/// The thumb always lies on its track and always has a row to grab.
pub proof fn thumb_lies_on_its_track(scrollbar: ConsoleScrollbar, track_rows: int)
    requires
        0 <= track_rows,
    ensures
        ({
            let (start, length) = thumb(scrollbar, track_rows);
            &&& 0 <= start
            &&& start + length <= track_rows
            &&& track_rows > 0 ==> length >= 1
        }),
{
    let max_position = less(scrollbar.content_length as int, 1);
    let position = smaller(scrollbar.position as int, max_position);
    let total = capped(max_position + scrollbar.viewport_length);
    if track_rows > 0 && total > 0 {
        part_is_bounded(scrollbar.viewport_length as int, track_rows, total);
        part_is_bounded(position, track_rows, total);
    }
}

/// Dragging the thumb to the top shows the first position, and dragging it to
/// the bottom, where there is room to drag, shows the last one.
pub proof fn drag_reaches_both_ends(
    scrollbar: ConsoleScrollbar,
    track_rows: int,
    thumb_start: int,
)
    requires
        0 <= track_rows,
    ensures
        dragged_position(scrollbar, track_rows, 0) == 0,
        ({
            let last_start = less(track_rows, thumb(scrollbar, track_rows).1);
            last_start > 0 && thumb_start >= last_start ==> dragged_position(
                scrollbar,
                track_rows,
                thumb_start,
            ) == less(scrollbar.content_length as int, 1)
        }),
{
    let last_start = less(track_rows, thumb(scrollbar, track_rows).1);
    let max_position = less(scrollbar.content_length as int, 1);
    thumb_lies_on_its_track(scrollbar, track_rows);
    if last_start > 0 {
        assert((0 * max_position) / last_start == 0) by (nonlinear_arith)
            requires
                last_start > 0,
        ;
        assert((last_start * max_position) / last_start == max_position) by (nonlinear_arith)
            requires
                last_start > 0,
        ;
    }
}

} // verus!
