//! Shared counters and the lock, as the limiter uses them.
//!
//! The counters are atomics, each padded to a cache line of its own by
//! `crossbeam_utils`; the lock is the mutex of `parking_lot`. Other threads
//! may change a counter between any two steps, so nothing is claimed of the
//! value that a counter returns, and nothing of what a lock is found to hold
//! beyond its type.

use crossbeam_utils::CachePadded;
use parking_lot::{Mutex, MutexGuard};
use std::sync::atomic::{AtomicUsize, Ordering};
use std::sync::Arc;
use vstd::prelude::*;

verus! {

#[verifier::external_type_specification]
#[verifier::external_body]
#[verifier::reject_recursive_types(T)]
pub struct ExCachePadded<T>(CachePadded<T>);

#[verifier::external_type_specification]
#[verifier::external_body]
pub struct ExRawMutex(parking_lot::RawMutex);

#[verifier::external_type_specification]
#[verifier::external_body]
#[verifier::reject_recursive_types(R)]
#[verifier::reject_recursive_types(T)]
pub struct ExMutex<R, T: ?Sized>(parking_lot::lock_api::Mutex<R, T>);

/// A held lock of `parking_lot`: its `MutexGuard`, which frees the lock when
/// it is dropped.
#[verifier::external_body]
#[verifier::reject_recursive_types(T)]
pub struct Held<'a, T> {
    guard: MutexGuard<'a, T>,
}

/// `CachePadded::new` on a fresh atomic: a counter on a cache line of its
/// own. Nothing is claimed of the result.
#[verifier::external_body]
pub(crate) fn new_counter(value: usize) -> CachePadded<AtomicUsize> {
    CachePadded::new(AtomicUsize::new(value))
}

/// `Deref::deref` of `CachePadded`: the atomic inside the padding. Nothing is
/// claimed of the result.
#[verifier::external_body]
pub(crate) fn counter(cell: &CachePadded<AtomicUsize>) -> &AtomicUsize {
    &**cell
}

/// `Arc::clone`: one more handle to the value that `handle` points to.
#[verifier::external_body]
pub(crate) fn share<T>(handle: &Arc<T>) -> (shared: Arc<T>)
    ensures
        shared == *handle,
{
    Arc::clone(handle)
}

/// `Mutex::new` of `parking_lot`: an unlocked mutex that holds `value`.
/// Nothing is claimed of the result.
#[verifier::external_body]
pub(crate) fn new_mutex<T>(value: T) -> Mutex<T> {
    Mutex::new(value)
}

/// `Mutex::lock` of `parking_lot`: blocks until the lock is free and returns
/// its guard. The limiter takes this lock in one place at a time and never
/// while it holds it, the case in which the call would not return. Nothing is
/// claimed of the result.
#[verifier::external_body]
pub(crate) fn lock<T>(mutex: &Mutex<T>) -> Held<'_, T> {
    Held { guard: mutex.lock() }
}

/// `DerefMut::deref_mut` of the guard: the value that the lock protects, for
/// as long as the guard is borrowed. Nothing is claimed of the value found.
#[verifier::external_body]
pub(crate) fn protected<'a, 'b, T>(held: &'a mut Held<'b, T>) -> &'a mut T {
    &mut *held.guard
}

/// The counter's value, read with relaxed ordering.
pub(crate) fn load_relaxed(cell: &CachePadded<AtomicUsize>) -> usize {
    counter(cell).load(Ordering::Relaxed)
}

/// Sets the counter to `value` with relaxed ordering.
pub(crate) fn store_relaxed(cell: &CachePadded<AtomicUsize>, value: usize) {
    counter(cell).store(value, Ordering::Relaxed)
}

/// Sets the counter to `value` with release ordering.
pub(crate) fn store_release(cell: &CachePadded<AtomicUsize>, value: usize) {
    counter(cell).store(value, Ordering::Release)
}

/// Sets the counter to `value` with relaxed ordering and returns what it held.
pub(crate) fn swap_relaxed(cell: &CachePadded<AtomicUsize>, value: usize) -> usize {
    counter(cell).swap(value, Ordering::Relaxed)
}

/// Sets the counter to `value` with release ordering and returns what it held.
pub(crate) fn swap_release(cell: &CachePadded<AtomicUsize>, value: usize) -> usize {
    counter(cell).swap(value, Ordering::Release)
}

/// Adds `value` to the counter with relaxed ordering, wrapping around, and
/// returns what it held.
pub(crate) fn fetch_add_relaxed(cell: &CachePadded<AtomicUsize>, value: usize) -> usize {
    counter(cell).fetch_add(value, Ordering::Relaxed)
}

/// Adds `value` to the counter with acquire and release ordering, wrapping
/// around, and returns what it held.
pub(crate) fn fetch_add_acq_rel(cell: &CachePadded<AtomicUsize>, value: usize) -> usize {
    counter(cell).fetch_add(value, Ordering::AcqRel)
}

} // verus!
