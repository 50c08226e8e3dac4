//! A lock-guarded owner of a value that can be shared between threads, and
//! the non-owning reference that other components hold to it.
//!
//! The value lives in a `std::sync::Mutex` behind a `std::sync::Arc`. What
//! the mutex holds at a given moment depends on what other threads have done
//! with it, so nothing in this module says what a lock finds: a caller works
//! on the value it is handed, and what it does to that value is stated by the
//! functions that it calls on it.
//!
//! The lock is taken inside this crate only, for the length of one call on
//! the guarded value, so that no thread asks for a lock that it holds.

use std::sync::{Arc, LockResult, Mutex, MutexGuard, PoisonError, Weak};
use vstd::prelude::*;

verus! {

/// `std::sync::Mutex`, carried through as an opaque value.
#[verifier::external_type_specification]
#[verifier::external_body]
#[verifier::reject_recursive_types(T)]
pub struct ExMutex<T: ?Sized>(Mutex<T>);

/// `std::sync::MutexGuard`, carried through as an opaque value.
#[verifier::external_type_specification]
#[verifier::external_body]
#[verifier::reject_recursive_types(T)]
pub struct ExMutexGuard<'a, T: ?Sized + 'a>(MutexGuard<'a, T>);

/// `std::sync::PoisonError`, carried through as an opaque value.
#[verifier::external_type_specification]
#[verifier::external_body]
#[verifier::reject_recursive_types(T)]
pub struct ExPoisonError<T>(PoisonError<T>);

/// Owner of a value of type `T` behind a lock. The value lives as long as
/// one owner of it does.
#[verifier::reject_recursive_types(T)]
pub struct SafeRef<T> {
    reference: Arc<Mutex<T>>,
}

/// Non-owning reference to the value of a [`SafeRef`]: it does not keep the
/// value alive, and has to be upgraded before the value can be used.
///
/// It holds a `std::sync::Weak`, a type that cannot be declared to the
/// verifier, so the whole struct is opaque to it.
#[verifier::external_body]
#[verifier::reject_recursive_types(T)]
pub struct WeakRef<T> {
    reference: Weak<Mutex<T>>,
}

/// `std::sync::Mutex::new`: a mutex that holds `value`. Nothing is claimed
/// of the result.
#[verifier::external_body]
fn mutex_new<T>(value: T) -> Mutex<T> {
    Mutex::new(value)
}

/// `std::sync::Arc::downgrade`: a weak reference to the allocation of
/// `strong`. Nothing is claimed of the result.
#[verifier::external_body]
fn arc_downgrade<T>(strong: &Arc<Mutex<T>>) -> WeakRef<T> {
    WeakRef { reference: Arc::downgrade(strong) }
}

/// `std::sync::Weak::upgrade`: an owner of the value if one is still alive,
/// `None` once the last has gone. Which of the two comes back depends on the
/// other holders, so nothing is claimed of the result.
#[verifier::external_body]
fn weak_upgrade<T>(weak: &WeakRef<T>) -> Option<Arc<Mutex<T>>> {
    weak.reference.upgrade()
}

/// `std::sync::Mutex::lock`: blocks until the lock is free and hands out its
/// guard, inside an error where a holder of the lock has panicked. Nothing is
/// claimed of the result.
///
/// A thread that holds the lock already must not call this: the call would
/// not return, or would panic. No precondition can name the thread that
/// holds a lock, so the state is kept out of reach instead. The guard
/// never leaves this crate, and every function of the crate that takes the
/// lock makes one call on the guarded value, which takes no lock itself,
/// and releases the lock before it returns.
#[verifier::external_body]
fn mutex_lock<'a, T>(mutex: &'a Mutex<T>) -> LockResult<MutexGuard<'a, T>> {
    mutex.lock()
}

/// `std::sync::PoisonError::into_inner`: the guard that the error carries.
/// Nothing is claimed of the result.
#[verifier::external_body]
fn poison_into_inner<'a, T>(error: PoisonError<MutexGuard<'a, T>>) -> MutexGuard<'a, T> {
    error.into_inner()
}

/// `DerefMut::deref_mut` of `std::sync::MutexGuard`: the guarded value, for
/// as long as `guard` is borrowed. Nothing is claimed of the value found.
#[verifier::external_body]
pub(crate) fn guard_mut<'a, 'b, T>(guard: &'a mut MutexGuard<'b, T>) -> &'a mut T {
    &mut **guard
}

impl<T> SafeRef<T> {
    /// Takes ownership of `from` and puts it behind a lock.
    pub fn new(from: T) -> SafeRef<T> {
        SafeRef { reference: Arc::new(mutex_new(from)) }
    }

    /// A non-owning reference to the value. It does not extend the value's
    /// life.
    pub fn downgrade(&self) -> WeakRef<T> {
        arc_downgrade(&self.reference)
    }

    /// Waits for the lock and hands out its guard; the lock is released when
    /// the guard is dropped, on every path. A lock whose holder has panicked
    /// is taken all the same.
    ///
    /// The caller holds no guard of this handle yet, makes one call on the
    /// guarded value and drops the guard before it returns.
    pub(crate) fn lock(&self) -> MutexGuard<'_, T> {
        match mutex_lock(&*self.reference) {
            Ok(guard) => guard,
            Err(poisoned) => poison_into_inner(poisoned),
        }
    }
}

impl<T> WeakRef<T> {
    /// An owner of the value for the time being, or `None` where no owner is
    /// left.
    pub fn upgrade(&self) -> Option<SafeRef<T>> {
        match weak_upgrade(self) {
            Some(reference) => Some(SafeRef { reference }),
            None => None,
        }
    }
}

} // verus!
