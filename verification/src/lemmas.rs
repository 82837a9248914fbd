//! What the contracts give for runs of writes and reads.
//!
//! The lemmas speak of one slot and one reader between which nothing else
//! happens. A write is a [`deliver`](crate::handles::deliver) to the slot, which
//! leaves it as [`deposited`] says; a read is a
//! [`refresh_from`](crate::handles::refresh_from) the slot, which leaves the
//! reader's value as [`refreshed`] says and the slot as [`drained`] says.
use crate::slot::deposited;
use crate::slot::drained;
use crate::slot::refreshed;
use vstd::prelude::*;

verus! {

/// What a slot holds once each of `values` was deposited in it, in order, with no
/// drain in between.
pub open spec fn deposited_all<T>(pending: Option<T>, values: Seq<T>) -> Option<T>
    decreases values.len(),
{
    if values.len() == 0 {
        pending
    } else {
        deposited(deposited_all(pending, values.drop_last()), values.last())
    }
}

/// The last write wins: after one or more writes with no read in between, the
/// slot holds the last value written, so that the read that follows finds it,
/// whatever the reader held and whatever was pending before the first write.
pub proof fn lemma_last_write_wins<T>(cached: T, pending: Option<T>, values: Seq<T>)
    requires
        values.len() > 0,
    ensures
        deposited_all(pending, values) == Some(values.last()),
        refreshed(cached, deposited_all(pending, values)) == values.last(),
{
}

/// Reading twice finds the same: the first read is handed what was pending and
/// leaves the slot drained, so a second read with no write in between is handed
/// what a drained slot holds, and keeps what the first one found.
pub proof fn lemma_read_is_idempotent<T>(cached: T, pending: Option<T>)
    ensures
        refreshed(refreshed(cached, pending), drained(pending)) == refreshed(cached, pending),
{
}

} // verus!
