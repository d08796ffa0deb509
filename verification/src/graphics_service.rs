//! The double buffer as a service shared between threads: an atomic write
//! selector and two slots, each behind its own lock.

use crate::handoff::slot_for_read;
use crate::handoff::slot_for_write;
use crate::handoff::Slot;
use crate::service::Service;
use crate::service::ServiceError;
use crate::sync::lock_slot;
use crate::sync::slot_value;
use crate::sync::Poisoned;
use std::sync::atomic::AtomicBool;
use std::sync::atomic::Ordering;
use std::sync::Arc;
use std::sync::Mutex;
use std::sync::MutexGuard;
use vstd::prelude::*;

verus! {

/// `AtomicBool::fetch_not`: negates the flag in one step and returns what it
/// held before. Other threads may flip it at any time, so nothing is claimed
/// of the value.
pub assume_specification[ AtomicBool::fetch_not ](flag: &AtomicBool, order: Ordering) -> (before:
    bool)
;

/// A payload type that can build its initial value.
pub trait Construct: Sized {
    fn initial() -> Self;
}

impl Construct for () {
    fn initial() -> Self {
        ()
    }
}

/// Two slots and the selector that says which of them producers write.
#[verifier::reject_recursive_types(T)]
pub struct GraphicsService<T> {
    current_write: AtomicBool,
    data1: Arc<Mutex<T>>,
    data2: Arc<Mutex<T>>,
}

impl<T> GraphicsService<T> {
    /// The shared handle of `slot`.
    pub closed spec fn handle(&self, slot: Slot) -> Arc<Mutex<T>> {
        match slot {
            Slot::First => self.data1,
            Slot::Second => self.data2,
        }
    }

    /// A service whose slots hold the two given values. The selector starts
    /// set, so the second slot is the first write target.
    pub fn with_slots(first: T, second: T) -> (r: Self) {
        GraphicsService {
            current_write: AtomicBool::new(true),
            data1: Arc::new(Mutex::new(first)),
            data2: Arc::new(Mutex::new(second)),
        }
    }

    /// A new handle to `slot`.
    pub fn slot(&self, slot: Slot) -> (r: Arc<Mutex<T>>)
        ensures
            r == self.handle(slot),
    {
        match slot {
            Slot::First => self.data1.clone(),
            Slot::Second => self.data2.clone(),
        }
    }

    /// Flips the selector in one atomic step and returns the slot that was
    /// the write target until the flip. One consumer role calls this, once
    /// per handoff.
    pub fn read_next(&self) -> (r: Arc<Mutex<T>>)
        ensures
            exists|before: bool| r == self.handle(#[trigger] crate::handoff::read_slot(before)),
    {
        let before = self.current_write.fetch_not(Ordering::AcqRel);
        self.slot(slot_for_read(before))
    }

    /// Returns the slot that is the write target at the moment of the call.
    /// The selector is read, not changed.
    pub fn write_next(&self) -> (r: Arc<Mutex<T>>)
        ensures
            exists|selector: bool|
                r == self.handle(#[trigger] crate::handoff::write_slot(selector)),
    {
        let selector = self.current_write.load(Ordering::Acquire);
        self.slot(slot_for_write(selector))
    }

    /// Overwrites the current write target with `value`, under that slot's
    /// lock, which is released before the call returns.
    pub fn publish(&self, value: T) -> (r: Result<(), ServiceError>)
        ensures
            r matches Err(e) ==> e == ServiceError::ServicePoisoned,
    {
        let slot = self.write_next();
        let r = store_under(lock_slot(&slot), value);
        r
    }
}

impl<T: Clone> GraphicsService<T> {
    /// Flips the selector and copies out what the slot that was written
    /// until then holds, under that slot's lock, which is released before
    /// the call returns.
    pub fn consume(&self) -> (r: Result<T, ServiceError>)
        ensures
            r matches Err(e) ==> e == ServiceError::ServicePoisoned,
    {
        let slot = self.read_next();
        let r = copy_under(lock_slot(&slot));
        r
    }
}

impl<T: Construct + Send + 'static> Service for GraphicsService<T> {
    fn init() -> Self {
        GraphicsService::with_slots(T::initial(), T::initial())
    }

    fn post_init(&mut self) {
    }
}

/// What a publish does once the lock of its slot has answered. With the
/// guard it overwrites the slot and releases the lock; a poisoned lock is
/// reported and `value` is dropped.
pub fn store_under<T>(locked: Result<MutexGuard<'_, T>, Poisoned>, value: T) -> (r: Result<
    (),
    ServiceError,
>)
    ensures
        locked is Ok ==> r == Ok::<(), ServiceError>(()),
        locked is Err ==> r == Err::<(), ServiceError>(ServiceError::ServicePoisoned),
{
    match locked {
        Ok(mut guard) => {
            let place = slot_value(&mut guard);
            *place = value;
            Ok(())
        },
        Err(_) => Err(ServiceError::ServicePoisoned),
    }
}

/// What a consume does once the lock of its slot has answered. With the
/// guard it copies the slot's content out and releases the lock; a poisoned
/// lock is reported.
pub fn copy_under<T: Clone>(locked: Result<MutexGuard<'_, T>, Poisoned>) -> (r: Result<
    T,
    ServiceError,
>)
    ensures
        locked is Ok ==> r is Ok,
        locked is Err ==> r == Err::<T, ServiceError>(ServiceError::ServicePoisoned),
{
    match locked {
        Ok(mut guard) => {
            let place = slot_value(&mut guard);
            Ok(place.clone())
        },
        Err(_) => Err(ServiceError::ServicePoisoned),
    }
}

} // verus!
