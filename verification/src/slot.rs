//! The slot: room for at most one value that waits to be read.
//!
//! A slot is either empty or holds one pending value. Depositing overwrites
//! whatever waits; draining takes it out. The handles keep one slot behind a
//! lock; here it is plain data, and every operation says exactly what it does.
use vstd::prelude::*;

verus! {

/// What a slot holds once `value` was deposited in it: that value, whatever was
/// pending before.
pub open spec fn deposited<T>(pending: Option<T>, value: T) -> Option<T> {
    Some(value)
}

/// What a slot holds once it was drained: nothing, whatever was pending before.
pub open spec fn drained<T>(pending: Option<T>) -> Option<T> {
    None
}

/// The value a reader holds after a drain handed it `handed`: the drained value
/// if there was one, else the value it held already.
pub open spec fn refreshed<T>(cached: T, handed: Option<T>) -> T {
    match handed {
        Some(value) => value,
        None => cached,
    }
}

/// Zero or one value waiting to be read.
#[derive(Debug)]
pub struct Slot<T> {
    pending: Option<T>,
}

impl<T> Slot<T> {
    /// The pending value, if any.
    pub closed spec fn view(&self) -> Option<T> {
        self.pending
    }

    /// An empty slot.
    pub fn new() -> (slot: Self)
        ensures
            slot@ == None::<T>,
    {
        Slot { pending: None }
    }

    /// Makes `value` the pending one. A value that was pending is dropped
    /// unseen.
    pub fn deposit(&mut self, value: T)
        ensures
            final(self)@ == deposited(old(self)@, value),
    {
        self.pending = Some(value);
    }

    /// Takes the pending value out, if there is one, and leaves the slot empty.
    pub fn drain(&mut self) -> (handed: Option<T>)
        ensures
            handed == old(self)@,
            final(self)@ == drained(old(self)@),
    {
        self.pending.take()
    }
}

/// Brings a reader's value up to date with what a drain handed over: `handed`
/// replaces it if there is one, else it stays as it is.
pub fn refresh<T>(cached: &mut T, handed: Option<T>)
    ensures
        *final(cached) == refreshed(*old(cached), handed),
{
    match handed {
        Some(value) => {
            *cached = value;
        },
        None => {},
    }
}

} // verus!
