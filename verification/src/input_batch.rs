//! Batches of wheel input.
//!
//! One ready burst of Stackhand-owned wheel input is handled before the next
//! render. The first different event stays ordered for the next loop.
//! Child-owned wheel events remain one-by-one terminal protocol input.

use vstd::prelude::*;

use crate::input::{Event, Rect};
use crate::input_queue::is_wheel;

#[allow(unused_imports)]
use crate::input_queue::wheel_event;

verus! {

/// The most events of one batch.
pub const INPUT_BATCH_LIMIT: usize = 512;

/// The part of the screen that a wheel turn belongs to.
#[derive(Clone, Copy, Debug, PartialEq, Eq, Structural)]
pub enum WheelSurface {
    ProcessList,
    Console,
}

/// One ready event, and whether Stackhand owns console wheels at that moment.
pub type ReadyEvent = (Event, bool);

/// The surface of a wheel turn that Stackhand owns.
pub open spec fn surface_of(
    event: Event,
    list_area: Rect,
    console_area: Rect,
    owns_console_wheel: bool,
) -> Option<WheelSurface> {
    match event {
        Event::Mouse(mouse) => if !wheel_event(event) {
            None
        } else if list_area.holds(mouse.column, mouse.row) {
            Some(WheelSurface::ProcessList)
        } else if console_area.holds(mouse.column, mouse.row) && owns_console_wheel {
            Some(WheelSurface::Console)
        } else {
            None
        },
        _ => None,
    }
}

/// How many ready events, from `from` on, belong to a surface; at most `room`.
pub open spec fn run_length(
    ready: Seq<ReadyEvent>,
    list_area: Rect,
    console_area: Rect,
    surface: WheelSurface,
    from: int,
    room: int,
) -> int
    decreases room,
{
    if room <= 0 || from < 0 || from >= ready.len() || surface_of(
        ready[from].0,
        list_area,
        console_area,
        ready[from].1,
    ) != Some(surface) {
        0
    } else {
        1 + run_length(ready, list_area, console_area, surface, from + 1, room - 1)
    }
}

/// The surface of a wheel turn that Stackhand owns.
pub fn wheel_surface(
    event: &Event,
    list_area: Rect,
    console_area: Rect,
    owns_console_wheel: bool,
) -> (r: Option<WheelSurface>)
    ensures
        r == surface_of(*event, list_area, console_area, owns_console_wheel),
{
    if !is_wheel(event) {
        return None;
    }
    match event {
        Event::Mouse(mouse) => {
            if list_area.contains(mouse.column, mouse.row) {
                Some(WheelSurface::ProcessList)
            } else if console_area.contains(mouse.column, mouse.row) && owns_console_wheel {
                Some(WheelSurface::Console)
            } else {
                None
            }
        },
        _ => None,
    }
}

/// One batch: its events, the different event that ended it, and how many
/// ready events were read.
#[derive(Clone, Debug, PartialEq, Eq)]
pub struct InputBatch {
    pub events: Vec<Event>,
    pub deferred: Option<Event>,
    pub reads: usize,
}

/// The events of ready entries.
pub open spec fn events_of(ready: Seq<ReadyEvent>) -> Seq<Event> {
    ready.map_values(|entry: ReadyEvent| entry.0)
}

/// Collect the events that are handled before the next render. Only a wheel
/// turn that Stackhand owns takes further events, and only from its surface.
pub fn collect_input_batch(
    first: Event,
    first_owned: bool,
    list_area: Rect,
    console_area: Rect,
    ready: &Vec<ReadyEvent>,
) -> (r: InputBatch)
    ensures
        match surface_of(first, list_area, console_area, first_owned) {
            None => r.events@ == seq![first] && r.deferred is None && r.reads == 0,
            Some(surface) => {
                let run = run_length(
                    ready@,
                    list_area,
                    console_area,
                    surface,
                    0,
                    INPUT_BATCH_LIMIT - 1,
                );
                &&& 0 <= run <= ready@.len()
                &&& r.events@ == seq![first] + events_of(ready@.take(run))
                &&& if run == INPUT_BATCH_LIMIT - 1 || run == ready@.len() {
                    r.deferred is None && r.reads == run
                } else {
                    r.deferred == Some(ready@[run].0) && r.reads == run + 1
                }
            },
        },
{
    let surface = match wheel_surface(&first, list_area, console_area, first_owned) {
        None => {
            let mut events: Vec<Event> = Vec::new();
            events.push(first);
            proof {
                assert(events@ =~= seq![first]);
            }
            return InputBatch { events, deferred: None, reads: 0 };
        },
        Some(surface) => surface,
    };
    let mut events: Vec<Event> = Vec::new();
    events.push(first);
    let mut index: usize = 0;
    let ghost whole = run_length(
        ready@,
        list_area,
        console_area,
        surface,
        0,
        INPUT_BATCH_LIMIT - 1,
    );
    proof {
        assert(ready@.take(0) =~= Seq::<ReadyEvent>::empty());
        assert(events@ =~= seq![first] + events_of(ready@.take(0)));
    }
    while index < INPUT_BATCH_LIMIT - 1 && index < ready.len()
        invariant
            index <= INPUT_BATCH_LIMIT - 1,
            index <= ready.len(),
            events@ == seq![first] + events_of(ready@.take(index as int)),
            surface_of(first, list_area, console_area, first_owned) == Some(surface),
            whole == run_length(
                ready@,
                list_area,
                console_area,
                surface,
                0,
                INPUT_BATCH_LIMIT - 1,
            ),
            whole == index + run_length(
                ready@,
                list_area,
                console_area,
                surface,
                index as int,
                INPUT_BATCH_LIMIT - 1 - index,
            ),
        decreases INPUT_BATCH_LIMIT - index,
    {
        let next = ready[index].0.duplicate();
        let same = match wheel_surface(&next, list_area, console_area, ready[index].1) {
            Some(found) => found == surface,
            None => false,
        };
        if !same {
            return InputBatch { events, deferred: Some(next), reads: index + 1 };
        }
        let ghost earlier = events@;
        events.push(next);
        index = index + 1;
        proof {
            assert(ready@.take(index as int) =~= ready@.take(index - 1).push(ready@[index - 1]));
            assert(events_of(ready@.take(index as int)) =~= events_of(ready@.take(index - 1)).push(
                next,
            ));
            assert(events@ =~= seq![first] + events_of(ready@.take(index as int)));
        }
    }
    InputBatch { events, deferred: None, reads: index }
}

proof fn run_is_bounded(
    ready: Seq<ReadyEvent>,
    list_area: Rect,
    console_area: Rect,
    surface: WheelSurface,
    from: int,
    room: int,
)
    ensures
        ({
            let run = run_length(ready, list_area, console_area, surface, from, room);
            &&& 0 <= run
            &&& room >= 0 ==> run <= room
        }),
    decreases room,
{
    if room > 0 {
        run_is_bounded(ready, list_area, console_area, surface, from + 1, room - 1);
    }
}

/// No batch takes more events than its limit.
pub proof fn batch_stays_bounded(
    ready: Seq<ReadyEvent>,
    list_area: Rect,
    console_area: Rect,
    surface: WheelSurface,
)
    ensures
        0 <= run_length(ready, list_area, console_area, surface, 0, INPUT_BATCH_LIMIT - 1)
            <= INPUT_BATCH_LIMIT - 1,
{
    run_is_bounded(ready, list_area, console_area, surface, 0, INPUT_BATCH_LIMIT - 1);
}

} // verus!
