//! The locks of the standard library, as far as the services use them.

use std::sync::Mutex;
use std::sync::MutexGuard;
use std::sync::RwLock;
use std::sync::RwLockWriteGuard;
use vstd::prelude::*;

verus! {

/// `std::sync::Mutex`, carried as an opaque value: the verifier sees neither
/// the lock's state nor what it guards.
#[verifier::external_type_specification]
#[verifier::external_body]
#[verifier::reject_recursive_types(T)]
pub struct ExMutex<T: ?Sized>(Mutex<T>);

/// `std::sync::MutexGuard`, carried as an opaque value. Dropping it releases
/// the lock.
#[verifier::external_type_specification]
#[verifier::external_body]
#[verifier::reject_recursive_types(T)]
pub struct ExMutexGuard<'a, T: ?Sized + 'a>(MutexGuard<'a, T>);

/// `std::sync::RwLock`, carried as an opaque value: the verifier sees neither
/// the lock's state nor what it guards.
#[verifier::external_type_specification]
#[verifier::external_body]
#[verifier::reject_recursive_types(T)]
pub struct ExRwLock<T: ?Sized>(RwLock<T>);

/// `std::sync::RwLockWriteGuard`, carried as an opaque value. Dropping it
/// releases the lock.
#[verifier::external_type_specification]
#[verifier::external_body]
#[verifier::reject_recursive_types(T)]
pub struct ExRwLockWriteGuard<'a, T: ?Sized + 'a>(RwLockWriteGuard<'a, T>);

/// A lock was found poisoned: an earlier holder ended abnormally while it
/// held exclusive access.
#[derive(Clone, Copy, Debug, PartialEq, Eq, Structural)]
pub struct Poisoned;

/// `Mutex::new`: a lock around `value`. A lock's content may change under
/// any holder of a handle, so nothing is claimed of it.
pub assume_specification<T>[ Mutex::<T>::new ](value: T) -> (lock: Mutex<T>)
;

/// `RwLock::new`: a shared/exclusive lock around `value`; nothing is claimed
/// of its content.
pub assume_specification<T>[ RwLock::<T>::new ](value: T) -> (lock: RwLock<T>)
;

/// `Mutex::lock`: blocks until the lock is free and hands out its guard, or
/// reports that the lock is poisoned. Which of the two happens depends on
/// the other holders, so nothing is claimed of the result. A thread that
/// already holds the guard of `slot` must release it before it calls this.
#[verifier::external_body]
pub(crate) fn lock_slot<'a, T>(slot: &'a Mutex<T>) -> (r: Result<MutexGuard<'a, T>, Poisoned>) {
    match slot.lock() {
        Ok(guard) => Ok(guard),
        Err(_) => Err(Poisoned),
    }
}

/// `DerefMut::deref_mut` of a `MutexGuard`: the locked value, for as long
/// as the guard is borrowed.
#[verifier::external_body]
pub(crate) fn slot_value<'g, 'a, T>(guard: &'g mut MutexGuard<'a, T>) -> (r: &'g mut T) {
    &mut **guard
}

/// `RwLock::write`: blocks until no other holder is left and hands out the
/// write guard, or reports that the lock is poisoned. Nothing is claimed of
/// the result. A thread that already holds a guard of `lock` must release it
/// before it calls this.
#[verifier::external_body]
pub(crate) fn lock_exclusive<'a, T>(lock: &'a RwLock<T>) -> (r: Result<
    RwLockWriteGuard<'a, T>,
    Poisoned,
>) {
    match lock.write() {
        Ok(guard) => Ok(guard),
        Err(_) => Err(Poisoned),
    }
}

/// `DerefMut::deref_mut` of a `RwLockWriteGuard`: the locked value, for as
/// long as the guard is borrowed.
#[verifier::external_body]
pub(crate) fn locked_value<'g, 'a, T>(guard: &'g mut RwLockWriteGuard<'a, T>) -> (r: &'g mut T) {
    &mut **guard
}

} // verus!
