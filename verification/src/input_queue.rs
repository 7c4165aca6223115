//! Bounded application input scheduling.
//!
//! The application receives semantic batches instead of replaying an unbounded
//! host queue. Repeated wheels share one queue entry, stale movement is
//! replaced, and old lossy mouse input yields to current input. Ordered keys,
//! clicks, drags, paste, focus, and resize events are never discarded.

use vstd::prelude::*;

use std::collections::VecDeque;

use crate::input::{Event, MouseEventKind};

#[allow(unused_imports)]
use crate::scrollbar::capped;

verus! {

/// The most entries of the queue.
pub const INPUT_QUEUE_LIMIT: usize = 256;

/// An event and how often it came.
pub type Action = (Event, usize);

/// What became of an event that was offered to the queue.
#[derive(Clone, Debug, PartialEq, Eq)]
pub enum PushOutcome {
    /// It became part of the last entry.
    Merged,
    /// It is the last entry.
    Queued,
    /// It was dropped.
    Discarded,
    /// The queue is full of ordered input; offer the event again when there is
    /// room.
    Wait(Event),
}

/// A turn of the wheel.
pub open spec fn wheel_event(event: Event) -> bool {
    event matches Event::Mouse(mouse) && mouse.kind.wheel()
}

/// A movement without a button.
pub open spec fn motion_event(event: Event) -> bool {
    event matches Event::Mouse(mouse) && mouse.kind == MouseEventKind::Moved
}

/// Mouse input that may be dropped.
pub open spec fn lossy(event: Event) -> bool {
    wheel_event(event) || motion_event(event)
}

/// The queue after an event became part of its last entry, if it can.
pub open spec fn merged(actions: Seq<Action>, event: Event) -> Option<Seq<Action>> {
    if actions.len() == 0 {
        None
    } else {
        let (tail, repeats) = actions.last();
        if wheel_event(tail) && tail == event {
            Some(actions.drop_last().push((tail, capped(repeats + 1) as usize)))
        } else if motion_event(tail) && motion_event(event) {
            Some(actions.drop_last().push((event, 1)))
        } else {
            None
        }
    }
}

/// The first entry, from `from` on, that may be dropped.
pub open spec fn first_lossy(actions: Seq<Action>, from: int) -> Option<int>
    decreases actions.len() - from,
{
    if from < 0 || from >= actions.len() {
        None
    } else if lossy(actions[from].0) {
        Some(from)
    } else {
        first_lossy(actions, from + 1)
    }
}

/// The queue after an event was offered, and what became of the event.
pub open spec fn offered(actions: Seq<Action>, event: Event, stopping: bool) -> (
    Seq<Action>,
    PushOutcome,
) {
    match merged(actions, event) {
        Some(next) => (next, PushOutcome::Merged),
        None => if actions.len() < INPUT_QUEUE_LIMIT {
            (actions.push((event, 1)), PushOutcome::Queued)
        } else {
            match first_lossy(actions, 0) {
                Some(index) => (actions.remove(index).push((event, 1)), PushOutcome::Queued),
                None => if lossy(event) || stopping {
                    (actions, PushOutcome::Discarded)
                } else {
                    (actions, PushOutcome::Wait(event))
                },
            }
        },
    }
}

/// Whether an event is a turn of the wheel.
pub fn is_wheel(event: &Event) -> (r: bool)
    ensures
        r == wheel_event(*event),
{
    match event {
        Event::Mouse(mouse) => match mouse.kind {
            MouseEventKind::ScrollUp => true,
            MouseEventKind::ScrollDown => true,
            MouseEventKind::ScrollLeft => true,
            MouseEventKind::ScrollRight => true,
            _ => false,
        },
        _ => false,
    }
}

/// Whether an event is a movement without a button.
pub fn is_motion(event: &Event) -> (r: bool)
    ensures
        r == motion_event(*event),
{
    match event {
        Event::Mouse(mouse) => mouse.kind == MouseEventKind::Moved,
        _ => false,
    }
}

/// Whether an event may be dropped.
pub fn is_lossy_mouse(event: &Event) -> (r: bool)
    ensures
        r == lossy(*event),
{
    is_wheel(event) || is_motion(event)
}

/// Whether two events are the same mouse event.
fn same_mouse(a: &Event, b: &Event) -> (r: bool)
    requires
        a is Mouse,
    ensures
        r == (*a == *b),
{
    match (a, b) {
        (Event::Mouse(first), Event::Mouse(second)) => *first == *second,
        _ => false,
    }
}

/// The bounded queue between the input reader and the application.
#[derive(Clone, Debug)]
pub struct InputQueue {
    actions: VecDeque<Action>,
    error: Option<String>,
}

impl InputQueue {
    /// The queued entries, oldest first.
    pub closed spec fn entries(&self) -> Seq<Action> {
        self.actions@
    }

    /// The failure of the reader that has not been reported yet.
    pub closed spec fn failure(&self) -> Option<Seq<char>> {
        match self.error {
            Some(error) => Some(error@),
            None => None,
        }
    }

    /// The queue never grows beyond its limit.
    pub open spec fn wf(&self) -> bool {
        self.entries().len() <= INPUT_QUEUE_LIMIT
    }

    /// An empty queue.
    pub fn new() -> (r: Self)
        ensures
            r.wf(),
            r.entries() == Seq::<Action>::empty(),
            r.failure() is None,
    {
        InputQueue { actions: VecDeque::new(), error: None }
    }

    /// Offer one event. While the reader is stopping, an event that finds no
    /// room is dropped instead of waiting.
    pub fn push(&mut self, event: Event, stopping: bool) -> (r: PushOutcome)
        requires
            old(self).wf(),
        ensures
            final(self).wf(),
            (final(self).entries(), r) == offered(old(self).entries(), event, stopping),
            final(self).failure() == old(self).failure(),
    {
        if self.merge_tail(&event) {
            return PushOutcome::Merged;
        }
        if self.actions.len() == INPUT_QUEUE_LIMIT {
            match self.oldest_lossy() {
                Some(index) => {
                    let _ = self.actions.remove(index);
                },
                None => {
                    if is_lossy_mouse(&event) || stopping {
                        return PushOutcome::Discarded;
                    }
                    return PushOutcome::Wait(event);
                },
            }
        }
        self.actions.push_back((event, 1));
        PushOutcome::Queued
    }

    fn oldest_lossy(&self) -> (r: Option<usize>)
        ensures
            (match r {
                Some(index) => Some(index as int),
                None => None,
            }) == first_lossy(self.entries(), 0),
            r is Some ==> r->0 < self.entries().len(),
    {
        let mut index: usize = 0;
        while index < self.actions.len()
            invariant
                index <= self.actions@.len(),
                first_lossy(self.actions@, 0) == first_lossy(self.actions@, index as int),
            decreases self.actions@.len() - index,
        {
            if is_lossy_mouse(&self.actions[index].0) {
                return Some(index);
            }
            index = index + 1;
        }
        None
    }

    fn merge_tail(&mut self, event: &Event) -> (r: bool)
        ensures
            match merged(old(self).entries(), *event) {
                Some(next) => r && final(self).entries() == next,
                None => !r && final(self).entries() == old(self).entries(),
            },
            final(self).failure() == old(self).failure(),
    {
        let ghost before = self.actions@;
        let (tail, repeats) = match self.actions.pop_back() {
            Some(action) => action,
            None => {
                return false;
            },
        };
        let joins = is_wheel(&tail) && same_mouse(&tail, event);
        let replaces = is_motion(&tail) && is_motion(event);
        proof {
            assert(before.drop_last().push(before.last()) =~= before);
        }
        if joins {
            self.actions.push_back((tail, repeats.saturating_add(1)));
            return true;
        }
        if replaces {
            self.actions.push_back((event.duplicate(), 1));
            return true;
        }
        self.actions.push_back((tail, repeats));
        false
    }

    /// Record that the reader failed.
    pub fn fail(&mut self, error: String)
        ensures
            final(self).failure() == Some(error@),
            final(self).entries() == old(self).entries(),
    {
        self.error = Some(error);
    }

    /// Take everything that is ready: a reader failure first, and otherwise
    /// every entry in host-observation order.
    pub fn take_ready(&mut self) -> (r: Result<Option<Vec<Action>>, String>)
        ensures
            final(self).failure() is None,
            match r {
                Err(error) => old(self).failure() == Some(error@) && final(self).entries() == old(
                    self,
                ).entries(),
                Ok(None) => old(self).failure() is None && old(self).entries().len() == 0
                    && final(self).entries().len() == 0,
                Ok(Some(batch)) => old(self).failure() is None && old(self).entries().len() > 0
                    && batch@ == old(self).entries() && final(self).entries().len() == 0,
            },
    {
        if let Some(error) = self.error.take() {
            return Err(error);
        }
        if self.actions.len() == 0 {
            return Ok(None);
        }
        let ghost all = self.actions@;
        let mut batch: Vec<Action> = Vec::new();
        while self.actions.len() > 0
            invariant
                batch@ + self.actions@ == all,
                self.error is None,
            decreases self.actions@.len(),
        {
            let ghost left = self.actions@;
            let ghost taken = batch@;
            if let Some(action) = self.actions.pop_front() {
                batch.push(action);
                proof {
                    assert(left =~= seq![action] + self.actions@);
                    assert(batch@ + self.actions@ =~= taken + left);
                }
            }
        }
        proof {
            assert(batch@ + self.actions@ =~= batch@);
        }
        Ok(Some(batch))
    }
}

/// The entries that may never be dropped, in order.
pub open spec fn ordered(actions: Seq<Action>) -> Seq<Event>
    decreases actions.len(),
{
    if actions.len() == 0 {
        Seq::empty()
    } else if lossy(actions.last().0) {
        ordered(actions.drop_last())
    } else {
        ordered(actions.drop_last()).push(actions.last().0)
    }
}

proof fn ordered_push(actions: Seq<Action>, action: Action)
    ensures
        ordered(actions.push(action)) == (if lossy(action.0) {
            ordered(actions)
        } else {
            ordered(actions).push(action.0)
        }),
{
    assert(actions.push(action).drop_last() =~= actions);
}

proof fn ordered_without_lossy(actions: Seq<Action>, index: int)
    requires
        0 <= index < actions.len(),
        lossy(actions[index].0),
    ensures
        ordered(actions.remove(index)) == ordered(actions),
    decreases actions.len(),
{
    if index == actions.len() - 1 {
        assert(actions.remove(index) =~= actions.drop_last());
    } else {
        ordered_without_lossy(actions.drop_last(), index);
        assert(actions.remove(index).drop_last() =~= actions.drop_last().remove(index));
        assert(actions.remove(index).last() == actions.last());
    }
}

proof fn first_lossy_is_lossy(actions: Seq<Action>, from: int)
    requires
        0 <= from,
        first_lossy(actions, from) is Some,
    ensures
        0 <= first_lossy(actions, from)->0 < actions.len(),
        lossy(actions[first_lossy(actions, from)->0].0),
    decreases actions.len() - from,
{
    if from < actions.len() && !lossy(actions[from].0) {
        first_lossy_is_lossy(actions, from + 1);
    }
}

/// Ordered input is never discarded: whatever is offered, the ordered events
/// that were queued stay queued in their order, and an ordered event that is
/// taken comes after all of them. Only a stopping reader drops one that finds
/// no room.
pub proof fn ordered_input_is_never_lost(actions: Seq<Action>, event: Event, stopping: bool)
    ensures
        ({
            let (next, outcome) = offered(actions, event, stopping);
            &&& ordered(next) == (if lossy(event) || !(outcome is Queued) {
                ordered(actions)
            } else {
                ordered(actions).push(event)
            })
            &&& !lossy(event) && !stopping ==> outcome is Queued || outcome == PushOutcome::Wait(
                event,
            )
        }),
{
    let (next, outcome) = offered(actions, event, stopping);
    if let Some(joined) = merged(actions, event) {
        let (tail, repeats) = actions.last();
        assert(actions.drop_last().push(actions.last()) =~= actions);
        if wheel_event(tail) && tail == event {
            ordered_push(actions.drop_last(), (tail, capped(repeats + 1) as usize));
        } else {
            ordered_push(actions.drop_last(), (event, 1));
        }
    } else if actions.len() < INPUT_QUEUE_LIMIT {
        ordered_push(actions, (event, 1));
    } else if first_lossy(actions, 0) is Some {
        first_lossy_is_lossy(actions, 0);
        let index = first_lossy(actions, 0)->0;
        ordered_without_lossy(actions, index);
        ordered_push(actions.remove(index), (event, 1));
    }
}

/// The queue never exceeds its limit.
pub proof fn queue_stays_bounded(actions: Seq<Action>, event: Event, stopping: bool)
    requires
        actions.len() <= INPUT_QUEUE_LIMIT,
    ensures
        offered(actions, event, stopping).0.len() <= INPUT_QUEUE_LIMIT,
{
    if first_lossy(actions, 0) is Some {
        first_lossy_is_lossy(actions, 0);
    }
}

} // verus!
