//! Coalesced terminal resizes.
//!
//! A burst of resize events settles before the child sees one. Moments are
//! nanoseconds on a clock that never runs backwards.

use vstd::prelude::*;

use crate::geometry::TerminalGeometry;

verus! {

/// The longest wait between two looks at the event sources.
pub const EVENT_POLL_NANOS: u64 = 16_000_000;

/// How long a size must stand before it is used.
pub const RESIZE_SETTLE_NANOS: u64 = 16_000_000;

/// The latest size that has not been used yet, and when it may be.
#[derive(Clone, Copy, Debug)]
pub struct PendingResize {
    latest: Option<(TerminalGeometry, u64)>,
}

impl View for PendingResize {
    type V = Option<(TerminalGeometry, u64)>;

    closed spec fn view(&self) -> Option<(TerminalGeometry, u64)> {
        self.latest
    }
}

impl Default for PendingResize {
    fn default() -> (r: Self)
        ensures
            r@ is None,
    {
        PendingResize { latest: None }
    }
}

/// A size and the moment from which it may be used.
pub open spec fn settling(geometry: TerminalGeometry, now: u64) -> Option<(TerminalGeometry, u64)> {
    Some((geometry, (now + RESIZE_SETTLE_NANOS) as u64))
}

/// The size that is used at a moment, and what is remembered then.
pub open spec fn taken(pending: Option<(TerminalGeometry, u64)>, now: u64) -> (
    Option<TerminalGeometry>,
    Option<(TerminalGeometry, u64)>,
) {
    match pending {
        Some((geometry, ready_at)) => if now < ready_at {
            (None, pending)
        } else {
            (Some(geometry), None)
        },
        None => (None, None),
    }
}

/// What is remembered after a burst of sizes, each with its moment.
pub open spec fn after_burst(
    pending: Option<(TerminalGeometry, u64)>,
    sizes: Seq<(TerminalGeometry, u64)>,
) -> Option<(TerminalGeometry, u64)>
    decreases sizes.len(),
{
    if sizes.len() == 0 {
        pending
    } else {
        after_burst(settling(sizes[0].0, sizes[0].1), sizes.skip(1))
    }
}

/// Of a burst only the last size is used: not before it has settled, and once.
pub proof fn a_burst_settles_on_its_last_size(
    pending: Option<(TerminalGeometry, u64)>,
    sizes: Seq<(TerminalGeometry, u64)>,
    now: u64,
    later: u64,
)
    requires
        sizes.len() > 0,
        sizes.last().1 + RESIZE_SETTLE_NANOS <= u64::MAX,
    ensures
        ({
            let (geometry, seen_at) = sizes.last();
            let after = after_burst(pending, sizes);
            let (used, left) = taken(after, now);
            &&& now < seen_at + RESIZE_SETTLE_NANOS ==> used is None && left == after
            &&& now >= seen_at + RESIZE_SETTLE_NANOS ==> used == Some(geometry) && taken(
                left,
                later,
            ).0 is None
        }),
    decreases sizes.len(),
{
    let rest = sizes.skip(1);
    let next = settling(sizes[0].0, sizes[0].1);
    if rest.len() > 0 {
        assert(rest.last() == sizes.last());
        a_burst_settles_on_its_last_size(next, rest, now, later);
    } else {
        assert(after_burst(next, rest) == next);
    }
}

impl PendingResize {
    /// Remember a new size. It replaces any earlier one and has to settle.
    pub fn update(&mut self, geometry: TerminalGeometry, now: u64)
        requires
            now + RESIZE_SETTLE_NANOS <= u64::MAX,
        ensures
            final(self)@ == settling(geometry, now),
    {
        self.latest = Some((geometry, now + RESIZE_SETTLE_NANOS));
    }

    /// Take the remembered size once it has settled.
    pub fn take_ready(&mut self, now: u64) -> (r: Option<TerminalGeometry>)
        ensures
            (r, final(self)@) == taken(old(self)@, now),
    {
        match self.latest {
            None => None,
            Some((geometry, ready_at)) => {
                if now < ready_at {
                    return None;
                }
                self.latest = None;
                Some(geometry)
            },
        }
    }

    /// How long to wait for input: until the size is ready, and never longer
    /// than the ordinary poll interval.
    pub fn poll_interval(&self, now: u64) -> (r: u64)
        ensures
            r == (match self@ {
                Some((geometry, ready_at)) => if ready_at <= now {
                    0
                } else if ready_at - now <= EVENT_POLL_NANOS {
                    (ready_at - now) as u64
                } else {
                    EVENT_POLL_NANOS
                },
                None => EVENT_POLL_NANOS,
            }),
    {
        match self.latest {
            None => EVENT_POLL_NANOS,
            Some((_, ready_at)) => {
                let left: u64 = ready_at.saturating_sub(now);
                if left <= EVENT_POLL_NANOS {
                    left
                } else {
                    EVENT_POLL_NANOS
                }
            },
        }
    }
}

} // verus!
