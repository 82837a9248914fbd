//! What the handles take from `std::sync`, on trust.
//!
//! Verus does not look inside a `Mutex`, a `MutexGuard` or a `Weak`, and what
//! they give back depends on what other threads have done in the meantime. So
//! nothing here promises anything about a result: each item only makes the std
//! function callable, and the callers are verified for every value that may
//! come back.
use std::ops::DerefMut;
use std::sync::Arc;
use std::sync::LockResult;
use std::sync::Mutex;
use std::sync::MutexGuard;
use std::sync::PoisonError;
use std::sync::Weak;
use vstd::prelude::*;

verus! {

/// `std::sync::Mutex`, opaque.
#[verifier::external_type_specification]
#[verifier::external_body]
#[verifier::reject_recursive_types(T)]
pub struct ExMutex<T: ?Sized>(Mutex<T>);

/// `std::sync::MutexGuard`, opaque.
#[verifier::external_type_specification]
#[verifier::external_body]
#[verifier::reject_recursive_types(T)]
pub struct ExMutexGuard<'a, T: ?Sized + 'a>(MutexGuard<'a, T>);

/// `std::sync::PoisonError`, opaque.
#[verifier::external_type_specification]
#[verifier::external_body]
#[verifier::reject_recursive_types(T)]
pub struct ExPoisonError<T>(PoisonError<T>);

/// `Mutex::new`: a new, unlocked mutex around `value`. Nothing is claimed of it:
/// no contract can speak of what a mutex holds.
pub assume_specification<T>[ Mutex::<T>::new ](value: T) -> (mutex: Mutex<T>)
;

/// `Mutex::lock`: waits until the calling thread holds the lock. `Ok` carries the
/// guard; `Err` says that a thread panicked while it held the lock, and carries
/// the guard all the same. Nothing is claimed of what the guard protects: any
/// thread may have stored there since the caller last looked.
///
/// std leaves open what the call does when the calling thread holds the lock
/// already: it may panic or never return. Only the two handles call this, each
/// on the mutex of its own channel, which no caller can reach; they take the
/// lock once and give it up before they return.
pub assume_specification<'a, T: ?Sized>[ Mutex::<T>::lock ](mutex: &'a Mutex<T>) -> (outcome:
    LockResult<MutexGuard<'a, T>>)
;

/// `DerefMut::deref_mut` of a `MutexGuard`: the protected value, for as long as
/// the guard is borrowed. Nothing is claimed of the value found there.
#[verifier::external_body]
pub(crate) fn guarded<'a, 'b, T>(guard: &'a mut MutexGuard<'b, T>) -> (protected: &'a mut T) {
    guard.deref_mut()
}

/// `Arc::weak_count`: the number of `Weak` pointers to the allocation at the
/// moment of the call. Other threads may change it at any time, so nothing is
/// claimed of the number.
#[verifier::external_body]
pub(crate) fn observers<S>(target: &Arc<S>) -> (count: usize) {
    Arc::weak_count(target)
}

/// A `std::sync::Weak`: it points to a shared value without keeping it alive.
/// Verus cannot be told of `Weak` itself, so it is held in this struct, whose
/// inside Verus does not see.
#[verifier::external_body]
#[verifier::reject_recursive_types(S)]
#[derive(Debug)]
pub(crate) struct Observer<S> {
    target: Weak<S>,
}

impl<S> Observer<S> {
    /// `Arc::downgrade`: a new observer of the value that `target` owns.
    #[verifier::external_body]
    pub(crate) fn of(target: &Arc<S>) -> (observer: Self) {
        Observer { target: Arc::downgrade(target) }
    }

    /// `Weak::upgrade`: an owner of the observed value, or `None` once its last
    /// owner is gone. Which of the two depends on what the owners have done, so
    /// nothing is claimed of the result.
    #[verifier::external_body]
    pub(crate) fn upgrade(&self) -> (target: Option<Arc<S>>) {
        self.target.upgrade()
    }
}

impl<S> Clone for Observer<S> {
    /// `Weak::clone`: one more observer of the same value.
    #[verifier::external_body]
    fn clone(&self) -> (observer: Self) {
        Observer { target: self.target.clone() }
    }
}

} // verus!
