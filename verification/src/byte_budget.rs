//! A byte limit shared by the two ends of one bounded queue.

use vstd::prelude::*;

use std::sync::atomic::{AtomicUsize, Ordering};
use std::sync::Arc;

verus! {

/// The pending bytes after an admission, if the limit allows it.
pub open spec fn admitted(pending: usize, amount: usize, limit: usize) -> Option<usize> {
    if pending + amount <= limit {
        Some((pending + amount) as usize)
    } else {
        None
    }
}

/// The pending bytes after an admission, if the limit allows it. A sum beyond
/// the largest number never fits.
pub fn within_limit(pending: usize, amount: usize, limit: usize) -> (r: Option<usize>)
    ensures
        r == admitted(pending, amount, limit),
{
    match pending.checked_add(amount) {
        Some(next) => if next <= limit {
            Some(next)
        } else {
            None
        },
        None => None,
    }
}

/// Charge an amount through `AtomicUsize::fetch_update`, which hands the
/// current value to `within_limit` and stores what it returns in one atomic step. It
/// gives back the value it found: as `Ok` when `within_limit` returned a new value,
/// and as `Err` when it returned none. Which value is found depends on the
/// other users of the counter and is left open.
#[verifier::external_body]
fn charge(pending: &AtomicUsize, amount: usize, limit: usize) -> (r: Result<usize, usize>)
    ensures
        match r {
            Ok(found) => admitted(found, amount, limit) is Some,
            Err(found) => admitted(found, amount, limit) is None,
        },
{
    pending.fetch_update(
        Ordering::AcqRel,
        Ordering::Acquire,
        |current| within_limit(current, amount, limit),
    )
}

/// Take an amount off through `AtomicUsize::fetch_sub`, which never panics.
/// The value it leaves depends on the other users of the counter.
#[verifier::external_body]
fn discharge(pending: &AtomicUsize, amount: usize)
    opens_invariants none
    no_unwind
{
    pending.fetch_sub(amount, Ordering::AcqRel);
}

/// A byte limit shared by the two ends of one bounded queue.
pub struct ByteBudget {
    pending: Arc<AtomicUsize>,
    limit: usize,
}

/// A tentative byte reservation.
///
/// Dropping this value releases the bytes. Call [`ByteReservation::commit`]
/// only after the queue accepts the item. The queue consumer must then call
/// [`ByteBudget::release`] at its completion boundary.
pub struct ByteReservation {
    budget: ByteBudget,
    amount: usize,
    pending_before: usize,
    release_on_drop: bool,
}

/// The budget has no room; it held this many bytes.
#[derive(Clone, Copy, Debug, PartialEq, Eq, Structural)]
pub struct ByteBudgetExceeded {
    pub pending_bytes: usize,
}

impl ByteBudget {
    /// The limit.
    pub closed spec fn bound(&self) -> usize {
        self.limit
    }

    /// The counter that every charge and release of this budget goes to. It is
    /// shared, so this is which counter it is and not the number it holds.
    pub closed spec fn counter(&self) -> Arc<AtomicUsize> {
        self.pending
    }

    /// A budget of `limit` bytes.
    pub fn new(limit: usize) -> (r: Self)
        ensures
            r.bound() == limit,
    {
        ByteBudget { pending: Arc::new(AtomicUsize::new(0)), limit }
    }

    /// Reserve all of an amount or nothing.
    pub fn reserve(&self, amount: usize) -> (r: Result<ByteReservation, ByteBudgetExceeded>)
        ensures
            match r {
                Ok(reservation) => {
                    &&& reservation.bytes() == amount
                    &&& reservation.releases()
                    &&& reservation.limit() == self.bound()
                    &&& reservation.counter() == self.counter()
                    &&& admitted(reservation.found(), amount, self.bound()) is Some
                },
                Err(full) => admitted(full.pending_bytes, amount, self.bound()) is None,
            },
    {
        match charge(&self.pending, amount, self.limit) {
            Ok(found) => Ok(
                ByteReservation {
                    budget: self.clone(),
                    amount,
                    pending_before: found,
                    release_on_drop: true,
                },
            ),
            Err(found) => Err(ByteBudgetExceeded { pending_bytes: found }),
        }
    }

    /// Give bytes back. The counter is shared, so nothing is said of the value
    /// that it takes on.
    pub fn release(&self, amount: usize)
        opens_invariants none
        no_unwind
    {
        discharge(&self.pending, amount);
    }

    /// The bytes charged at this moment. They can change before the caller
    /// looks at them, so nothing is said of the number.
    pub fn pending_bytes(&self) -> usize {
        self.pending.load(Ordering::Acquire)
    }
}

impl Clone for ByteBudget {
    /// The same budget for the other end: charges and releases of either count
    /// for both.
    fn clone(&self) -> (r: Self)
        ensures
            r.bound() == self.bound(),
            r.counter() == self.counter(),
    {
        ByteBudget { pending: self.pending.clone(), limit: self.limit }
    }
}

impl ByteReservation {
    /// The reserved bytes.
    pub closed spec fn bytes(&self) -> usize {
        self.amount
    }

    /// The bytes that were charged before this reservation.
    pub closed spec fn found(&self) -> usize {
        self.pending_before
    }

    /// Whether dropping the reservation gives its bytes back.
    pub closed spec fn releases(&self) -> bool {
        self.release_on_drop
    }

    /// The limit of the budget it was made from.
    pub closed spec fn limit(&self) -> usize {
        self.budget.bound()
    }

    /// The counter of the budget it was made from, to which its bytes go back.
    pub closed spec fn counter(&self) -> Arc<AtomicUsize> {
        self.budget.counter()
    }

    /// The bytes that were pending before the reservation.
    pub fn pending_before(&self) -> (r: usize)
        ensures
            r == self.found(),
    {
        self.pending_before
    }

    /// The bytes that dropping the reservation gives back.
    pub fn owed(&self) -> (r: usize)
        ensures
            r == (if self.releases() {
                self.bytes()
            } else {
                0
            }),
        opens_invariants none
        no_unwind
    {
        if self.release_on_drop {
            self.amount
        } else {
            0
        }
    }

    /// The reservation with its bytes kept.
    fn kept(self) -> (r: Self)
        ensures
            !r.releases(),
            r.bytes() == self.bytes(),
            r.found() == self.found(),
            r.limit() == self.limit(),
            r.counter() == self.counter(),
    {
        let mut kept = self;
        kept.release_on_drop = false;
        kept
    }

    /// Keep the reservation charged after successful queue admission. What is
    /// dropped here owes nothing; the counter itself is shared, so nothing is
    /// said of its value.
    pub fn commit(self) {
        let kept = self.kept();
        assert(!kept.releases());
    }
}

impl Drop for ByteReservation {
    fn drop(&mut self)
        opens_invariants none
        no_unwind
    {
        let owed: usize = self.owed();
        if owed > 0 {
            self.budget.release(owed);
        }
    }
}

/// An admission never exceeds the limit, and releasing its bytes restores the
/// charge that it found.
pub proof fn admission_is_bounded_and_reversible(pending: usize, amount: usize, limit: usize)
    ensures
        match admitted(pending, amount, limit) {
            Some(next) => next <= limit && next - amount == pending,
            None => pending + amount > limit,
        },
{
}

} // verus!
