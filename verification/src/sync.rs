//! The locking and waiting primitives of the standard library, as far as the
//! toolkit uses them.

use std::sync::atomic::AtomicBool;
use std::sync::atomic::Ordering;
use std::sync::Condvar;
use std::sync::Mutex;
use std::sync::MutexGuard;
use std::sync::TryLockError;
use vstd::prelude::*;

verus! {

/// `std::sync::Mutex`: a lock around a value. Nothing inside it is visible
/// to a contract.
#[verifier::external_type_specification]
#[verifier::external_body]
#[verifier::reject_recursive_types(T)]
pub struct ExMutex<T: ?Sized>(Mutex<T>);

/// `std::sync::MutexGuard`: the proof that a `Mutex` is held, and the way
/// to its value.
#[verifier::external_type_specification]
#[verifier::external_body]
#[verifier::reject_recursive_types(T)]
pub struct ExMutexGuard<'a, T: ?Sized + 'a>(MutexGuard<'a, T>);

/// `std::sync::Condvar`: where threads sleep until another thread wakes
/// them.
#[verifier::external_type_specification]
#[verifier::external_body]
pub struct ExCondvar(Condvar);

/// `Mutex::new`: an unlocked mutex around `t`. Nothing is claimed of it.
pub assume_specification<T>[ Mutex::<T>::new ](t: T) -> Mutex<T>;

/// `Condvar::new`: a condition variable with no thread waiting on it.
/// Nothing is claimed of it.
pub assume_specification[ Condvar::new ]() -> Condvar;

/// `std::hint::spin_loop`: tells the processor that the thread is in a
/// busy-wait loop. It has no effect that a contract could speak of.
pub assume_specification[ std::hint::spin_loop ]();

/// The orderings that a plain read of an atomic accepts. The standard library
/// panics on the others, which speak of a write.
pub open spec fn fits_read(order: Ordering) -> bool {
    order == Ordering::Relaxed || order == Ordering::Acquire || order == Ordering::SeqCst
}

/// The orderings that a plain write of an atomic accepts. The standard
/// library panics on the others, which speak of a read.
pub open spec fn fits_write(order: Ordering) -> bool {
    order == Ordering::Relaxed || order == Ordering::Release || order == Ordering::SeqCst
}

/// `AtomicBool::load`: the value the cell holds at some moment during the
/// call. Which value that is depends on the other threads, so nothing is
/// said of it. The ordering has to fit a read.
#[verifier::external_body]
pub(crate) fn read_cell(cell: &AtomicBool, order: Ordering) -> (held: bool)
    requires
        fits_read(order),
{
    cell.load(order)
}

/// `AtomicBool::store`: writes `value` into the cell. The ordering has to fit
/// a write; with such an ordering the call does not panic.
#[verifier::external_body]
pub(crate) fn write_cell(cell: &AtomicBool, value: bool, order: Ordering)
    requires
        fits_write(order),
    opens_invariants none
    no_unwind
{
    cell.store(value, order)
}

/// `AtomicBool::compare_exchange`: writes `new` if the cell holds `current`.
/// `Ok` means that it did and carries the value found, which is then
/// `current`; `Err` means that the cell was left alone and carries the value
/// found, which then differs from `current`. The ordering for the failure
/// case has to fit a read.
#[verifier::external_body]
pub(crate) fn exchange_cell(
    cell: &AtomicBool,
    current: bool,
    new: bool,
    success: Ordering,
    failure: Ordering,
) -> (reply: Result<bool, bool>)
    requires
        fits_read(failure),
    ensures
        match reply {
            Ok(found) => found == current,
            Err(found) => found != current,
        },
{
    cell.compare_exchange(current, new, success, failure)
}

/// `Condvar::notify_one`: wakes one thread that waits on the condition
/// variable, if there is one. It returns nothing and does not panic.
#[verifier::external_body]
pub(crate) fn wake_one(cv: &Condvar)
    opens_invariants none
    no_unwind
{
    cv.notify_one()
}

/// `Condvar::notify_all`: wakes every thread that waits on the condition
/// variable. It returns nothing and does not panic.
#[verifier::external_body]
pub(crate) fn wake_all(cv: &Condvar)
    opens_invariants none
    no_unwind
{
    cv.notify_all()
}

/// `Mutex::lock`: blocks until the lock is free and takes it. `Ok` holds the
/// guard of a lock in good order, `Err` the guard recovered from a lock that
/// a panicking thread left poisoned. Nothing is said of the value behind the
/// guard: other threads wrote it.
///
/// A second `lock` by the thread that already holds the lock does not come
/// back: the standard library lets it hang or panic. The channel ends every
/// guard in the function that took it, so none of its threads locks twice;
/// the spin lock hands the condition on to its callers.
#[verifier::external_body]
pub(crate) fn hold<'a, T>(lock: &'a Mutex<T>) -> (entry: Result<
    MutexGuard<'a, T>,
    MutexGuard<'a, T>,
>)
    opens_invariants none
    no_unwind
{
    match lock.lock() {
        Ok(guard) => Ok(guard),
        Err(poisoned) => Err(poisoned.into_inner()),
    }
}

/// `Mutex::try_lock`: takes the lock if it is free, without waiting. `Some`
/// holds the guard, also that of a poisoned lock; `None` means that the lock
/// is taken.
#[verifier::external_body]
pub(crate) fn try_hold<'a, T>(lock: &'a Mutex<T>) -> (entry: Option<MutexGuard<'a, T>>)
{
    match lock.try_lock() {
        Ok(guard) => Some(guard),
        Err(TryLockError::Poisoned(poisoned)) => Some(poisoned.into_inner()),
        Err(TryLockError::WouldBlock) => None,
    }
}

/// `DerefMut::deref_mut` of a `MutexGuard`: exclusive access to the value
/// behind the lock for as long as the guard is borrowed.
#[verifier::external_body]
pub(crate) fn held<'a, 'b, T>(guard: &'a mut MutexGuard<'b, T>) -> (value: &'a mut T)
    opens_invariants none
    no_unwind
{
    &mut **guard
}

/// `Deref::deref` of a `MutexGuard`: shared access to the value behind the
/// lock.
#[verifier::external_body]
pub(crate) fn seen<'a, 'b, T>(guard: &'a MutexGuard<'b, T>) -> (value: &'a T)
    opens_invariants none
    no_unwind
{
    &**guard
}

} // verus!
