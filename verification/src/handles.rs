//! The two halves of a channel, and the functions that make one.
//!
//! The [`Receiver`] owns the shared slot and a value of its own, which it
//! refreshes from the slot whenever it is asked for the latest value. Each
//! [`Updater`] observes the slot without owning it: once the receiver is gone
//! the slot is gone too, and a write gets its value back.
//!
//! Between two calls on one handle the other handles may do anything, on other
//! threads, so no contract of a handle can say what it will find in the slot.
//! A handle therefore only reaches for the slot, and what is done with what it
//! found is stated exactly one call down, on functions that are handed the
//! slot itself: [`refresh_from`] for a read, [`deliver`] for a write,
//! [`none_observing`] and [`slot_is_gone`] for the two questions about who is
//! left.
//!
//! # Poisoned locks
//!
//! A lock is poisoned once a thread has panicked while it held it. This crate
//! has one rule for that, stated by [`slot_behind`]: through a poisoned lock no
//! slot is reached. A read then keeps the value that the receiver has, and a
//! write hands its value back in the error. No function of this crate panics on
//! that account.
use crate::shared::guarded;
use crate::shared::observers;
use crate::shared::Observer;
use crate::slot::deposited;
use crate::slot::drained;
use crate::slot::refresh;
use crate::slot::refreshed;
use crate::slot::Slot;
use std::sync::Arc;
use std::sync::LockResult;
use std::sync::Mutex;
use std::sync::MutexGuard;
use vstd::prelude::*;

verus! {

/// The receiving-half of the single value channel.
#[verifier::reject_recursive_types(T)]
#[derive(Debug)]
pub struct Receiver<T> {
    latest: T,
    latest_set: Arc<Mutex<Slot<T>>>,
}

/// The updating-half of the single value channel.
#[verifier::reject_recursive_types(T)]
#[derive(Debug)]
pub struct Updater<T> {
    latest: Observer<Mutex<Slot<T>>>,
}

/// An error returned from [`Updater::update`]: the value could not be handed
/// to the paired [`Receiver`], which has been dropped (or whose slot is behind a
/// poisoned lock).
///
/// Contains the value that had been passed into [`Updater::update`].
#[derive(PartialEq, Eq, Clone, Copy, Debug)]
pub struct NoReceiverError<T>(pub T);

/// What a write of `value` returns, given whether the slot could still be
/// reached: success, or the value handed back in the error.
pub open spec fn write_outcome<T>(reached: bool, value: T) -> Result<(), NoReceiverError<T>> {
    if reached {
        Ok(())
    } else {
        Err(NoReceiverError(value))
    }
}

impl<T> Receiver<T> {
    /// The value that the receiver holds: the one that [`Receiver::latest`]
    /// hands out for as long as the slot has nothing newer.
    pub closed spec fn view(&self) -> T {
        self.latest
    }

    /// Drains the slot into the receiver's own value, if the slot can be
    /// reached.
    fn update_latest(&mut self) {
        let mut outcome = self.latest_set.lock();
        refresh_from(&mut self.latest, slot_behind(&mut outcome));
    }

    /// Access latest updated value.
    ///
    /// The reference is to the receiver's own value, after it was refreshed
    /// from the slot.
    pub fn latest(&mut self) -> (value: &T)
        ensures
            *value == final(self)@,
    {
        self.update_latest();
        &self.latest
    }

    /// Access latest updated value mutably.
    ///
    /// The reference is to the receiver's own value, after it was refreshed
    /// from the slot: what the caller leaves there is what the receiver holds
    /// from then on, and no updater ever sees it.
    pub fn latest_mut(&mut self) -> (value: &mut T)
        ensures
            *final(value) == final(self)@,
    {
        self.update_latest();
        &mut self.latest
    }

    /// Returns true if all related [`Updater`] instances have been dropped.
    ///
    /// The answer is that of the moment of the call: updaters are cloned and
    /// dropped on other threads, out of sight of any contract. It does not
    /// change what [`Receiver::latest`] does.
    pub fn has_no_updater(&self) -> bool {
        none_observing(observers(&self.latest_set))
    }
}

/// Says whether no updater is left, given how many observe the slot: true
/// exactly where the count is zero.
///
/// This is what [`Receiver::has_no_updater`] answers once it has the count of
/// the moment.
pub fn none_observing(count: usize) -> (gone: bool)
    ensures
        gone == (count == 0),
{
    count == 0
}

/// The slot that an attempt to lock reached: the one behind the guard of a
/// sound lock, and none through a poisoned lock.
///
/// What the slot holds is whatever the other handles left there, so nothing is
/// said of it.
pub fn slot_behind<'a, 'b, T>(outcome: &'a mut LockResult<MutexGuard<'b, Slot<T>>>) -> (found:
    Option<&'a mut Slot<T>>)
    ensures
        found is Some <==> *old(outcome) is Ok,
{
    match outcome {
        Ok(guard) => Some(guarded(guard)),
        Err(_) => None,
    }
}

/// Refreshes a reader's value from the slot that it reached: the pending value
/// replaces the reader's, if there is one, and the slot is left empty. Where no
/// slot was reached the reader keeps what it has.
///
/// This is what [`Receiver::latest`] does once it has reached for the slot.
pub fn refresh_from<T>(cached: &mut T, slot: Option<&mut Slot<T>>)
    ensures
        slot is None ==> *final(cached) == *old(cached),
        slot matches Some(found) ==> *final(cached) == refreshed(*old(cached), found@)
            && final(found)@ == drained(found@),
{
    match slot {
        Some(found) => {
            let handed = found.drain();
            refresh(cached, handed);
        },
        None => {},
    }
}

/// Writes `value` to the slot that an updater reached, over whatever was
/// pending there, or hands it back where no slot was reached.
///
/// This is what [`Updater::update`] does once it has reached for the slot.
pub fn deliver<T>(target: Option<&mut Slot<T>>, value: T) -> (outcome: Result<
    (),
    NoReceiverError<T>,
>)
    ensures
        outcome == write_outcome(target is Some, value),
        target matches Some(found) ==> final(found)@ == deposited(found@, value),
{
    match target {
        Some(found) => {
            found.deposit(value);
            Ok(())
        },
        None => Err(NoReceiverError(value)),
    }
}

impl<T> Updater<T> {
    /// Updates the latest value in this channel, to be accessed the next time
    /// [`Receiver::latest`] or [`Receiver::latest_mut`] is called.
    ///
    /// This call will fail with [`NoReceiverError`] if the receiver has been
    /// dropped, and the error then holds `value`. It fails in the same way if
    /// the slot's lock is poisoned: the receiver takes nothing from such a slot
    /// any more.
    pub fn update(&self, value: T) -> (outcome: Result<(), NoReceiverError<T>>)
        ensures
            outcome matches Err(refused) ==> refused == NoReceiverError(value),
    {
        match self.latest.upgrade() {
            Some(shared) => {
                let mut attempt = shared.lock();
                let outcome = deliver(slot_behind(&mut attempt), value);
                outcome
            },
            None => deliver(None, value),
        }
    }

    /// Returns true if the receiver has been dropped. Thus indicating any
    /// following call to [`Updater::update`] would fail.
    ///
    /// The answer is that of the moment of the call: the receiver is dropped on
    /// another thread, out of sight of any contract.
    pub fn has_no_receiver(&self) -> bool {
        slot_is_gone(self.latest.upgrade())
    }
}

/// Says whether the receiver is gone, given what an updater reached: true
/// exactly where there is no slot left, which is where a write gets its value
/// back.
///
/// This is what [`Updater::has_no_receiver`] answers once it has tried to reach
/// the slot.
pub fn slot_is_gone<T>(target: Option<Arc<Mutex<Slot<T>>>>) -> (gone: bool)
    ensures
        gone == (target is None),
{
    target.is_none()
}

impl<T> Clone for Updater<T> {
    /// One more updater of the same channel. It writes to the same slot as
    /// `self`, and is dropped on its own.
    fn clone(&self) -> (updater: Self) {
        Updater { latest: self.latest.clone() }
    }
}

/// Constructs a single value channel with an initial value. Thus initial calls to
/// [`Receiver::latest`] will return that value until a [`Updater::update`] call
/// replaces the latest value.
pub fn channel_starting_with<T>(initial: T) -> (pair: (Receiver<T>, Updater<T>))
    ensures
        pair.0@ == initial,
{
    let receiver = Receiver { latest: initial, latest_set: Arc::new(Mutex::new(Slot::new())) };
    let updater = Updater { latest: Observer::of(&receiver.latest_set) };
    (receiver, updater)
}

/// Constructs a single value channel. Initial calls to [`Receiver::latest`] will
/// return `None`.
///
/// Since the initial value is `None` all calls to [`Updater::update`] must be
/// wrapped in an option. To avoid this consider providing an initial value to the
/// channel with [`channel_starting_with`].
pub fn channel<T>() -> (pair: (Receiver<Option<T>>, Updater<Option<T>>))
    ensures
        pair.0@ == None::<T>,
{
    channel_starting_with(None)
}

} // verus!
