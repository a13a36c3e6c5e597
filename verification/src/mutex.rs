//! A spin lock around one value, with a guard that ends the critical section
//! when it is dropped.
//!
//! Threads contend for the lock cell by compare-and-exchange. The value
//! itself lies inside a lock of the standard library, which hands out the
//! exclusive access: whoever has won the cell enters it unopposed, and a
//! thread that has spun long enough sleeps in its queue instead.

use crate::sync::exchange_cell;
use crate::sync::held;
use crate::sync::hold;
use crate::sync::seen;
use crate::sync::try_hold;
use crate::sync::write_cell;
use std::sync::atomic::AtomicBool;
use std::sync::atomic::Ordering;
use std::sync::Mutex;
use std::sync::MutexGuard;
use vstd::prelude::*;

verus! {

/// How often `lock` tries the lock cell in a tight loop before it stops
/// burning processor time and waits on the operating system instead.
pub const SPIN_LIMIT: usize = 4096;

/// One value of type `T` that only the holder of the lock can reach.
#[verifier::reject_recursive_types(T)]
pub struct SimpleMutex<T> {
    /// The lock cell that spinning threads contend for: `true` while one of
    /// them owns it.
    locked: AtomicBool,
    /// The value, inside the lock that hands out exclusive access to it.
    data: Mutex<T>,
}

/// The right to use the value of a `SimpleMutex`. Dropping it unlocks.
#[verifier::reject_recursive_types(T)]
pub struct SimpleMutexGuard<'a, T> {
    mutex: &'a SimpleMutex<T>,
    slot: MutexGuard<'a, T>,
    /// Whether this guard came by the lock cell, and so is the one to clear
    /// it.
    owns_cell: bool,
}

impl<'a, T> SimpleMutexGuard<'a, T> {
    /// The mutex whose value this guard gives access to.
    pub closed spec fn mutex(&self) -> &'a SimpleMutex<T> {
        self.mutex
    }
}

impl<T> SimpleMutex<T> {
    /// An unlocked mutex around `data`.
    pub fn new(data: T) -> (mutex: Self)
    {
        SimpleMutex { locked: AtomicBool::new(false), data: Mutex::new(data) }
    }

    /// One attempt to move the lock cell from unlocked to locked.
    fn try_acquire(&self) -> (won: bool)
    {
        exchange_cell(&self.locked, false, true, Ordering::Acquire, Ordering::Relaxed).is_ok()
    }

    /// Takes the lock if it is free right now: one compare-and-exchange on
    /// the lock cell from unlocked to locked, acquire on success and relaxed
    /// on failure. Never waits.
    pub fn try_lock(&self) -> (entry: Option<SimpleMutexGuard<'_, T>>)
        ensures
            entry matches Some(guard) ==> guard.mutex() == self,
    {
        if self.try_acquire() {
            match try_hold(&self.data) {
                Some(slot) => Some(SimpleMutexGuard { mutex: self, slot, owns_cell: true }),
                None => {
                    write_cell(&self.locked, false, Ordering::Release);
                    None
                },
            }
        } else {
            None
        }
    }

    /// Takes the lock, waiting until it is free. It tries the lock cell up to
    /// `SPIN_LIMIT` times in a tight loop, with a spin hint to the processor
    /// after each failure. If the lock is still taken then, it sleeps in the
    /// queue of the value's own lock until the holder is done.
    ///
    /// A thread that holds a guard of this mutex must not lock it again: it
    /// would wait for itself.
    pub fn lock(&self) -> (guard: SimpleMutexGuard<'_, T>)
        ensures
            guard.mutex() == self,
    {
        let mut tries: usize = 0;
        while tries < SPIN_LIMIT
            invariant
                tries <= SPIN_LIMIT,
            decreases SPIN_LIMIT - tries,
        {
            if self.try_acquire() {
                let slot = match hold(&self.data) {
                    Ok(slot) => slot,
                    Err(slot) => slot,
                };
                return SimpleMutexGuard { mutex: self, slot, owns_cell: true };
            }
            std::hint::spin_loop();
            tries = tries + 1;
        }
        let slot = match hold(&self.data) {
            Ok(slot) => slot,
            Err(slot) => slot,
        };
        SimpleMutexGuard { mutex: self, slot, owns_cell: false }
    }
}

impl<'a, T> std::ops::Deref for SimpleMutexGuard<'a, T> {
    type Target = T;

    /// The value, to read.
    fn deref(&self) -> &T {
        seen(&self.slot)
    }
}

impl<'a, T> std::ops::DerefMut for SimpleMutexGuard<'a, T> {
    /// The value, to change. The guard stays a guard of the same mutex.
    fn deref_mut(&mut self) -> (value: &mut T)
        ensures
            final(self).mutex() == old(self).mutex(),
    {
        held(&mut self.slot)
    }
}

impl<'a, T> Drop for SimpleMutexGuard<'a, T> {
    /// Unlocks: a release store of unlocked into the lock cell by the guard
    /// that came by it, and then the value's own lock is let go.
    fn drop(&mut self)
        opens_invariants none
        no_unwind
    {
        if self.owns_cell {
            write_cell(&self.mutex.locked, false, Ordering::Release);
        }
    }
}

} // verus!
