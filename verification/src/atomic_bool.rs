//! A boolean cell that many threads may read and write at once.
//!
//! Every operation is one indivisible step on the cell. What a step does to
//! the value it finds is written down here as spec functions; which value it
//! finds depends on the other threads and is no part of any contract.

use crate::sync::exchange_cell;
use crate::sync::fits_read;
use crate::sync::fits_write;
use crate::sync::read_cell;
use crate::sync::write_cell;
use std::sync::atomic::AtomicBool;
use std::sync::atomic::Ordering;
use vstd::prelude::*;

verus! {

/// `actual` orders memory at least as `asked` does.
pub open spec fn covers(actual: Ordering, asked: Ordering) -> bool {
    ||| actual == asked
    ||| actual == Ordering::SeqCst
    ||| asked == Ordering::Relaxed
    ||| actual == Ordering::AcqRel && (asked == Ordering::Acquire || asked == Ordering::Release)
}

/// The ordering that a read runs with when `asked` was requested: `asked`
/// itself where it fits a read, the strongest ordering otherwise.
pub open spec fn read_order_of(asked: Ordering) -> Ordering {
    if fits_read(asked) {
        asked
    } else {
        Ordering::SeqCst
    }
}

/// The ordering that a write runs with when `asked` was requested: `asked`
/// itself where it fits a write, the strongest ordering otherwise.
pub open spec fn write_order_of(asked: Ordering) -> Ordering {
    if fits_write(asked) {
        asked
    } else {
        Ordering::SeqCst
    }
}

/// Picks the ordering for a read.
pub fn read_order(asked: Ordering) -> (actual: Ordering)
    ensures
        actual == read_order_of(asked),
        fits_read(actual),
        covers(actual, asked),
{
    match asked {
        Ordering::Relaxed => Ordering::Relaxed,
        Ordering::Acquire => Ordering::Acquire,
        _ => Ordering::SeqCst,
    }
}

/// Picks the ordering for a write.
pub fn write_order(asked: Ordering) -> (actual: Ordering)
    ensures
        actual == write_order_of(asked),
        fits_write(actual),
        covers(actual, asked),
{
    match asked {
        Ordering::Relaxed => Ordering::Relaxed,
        Ordering::Release => Ordering::Release,
        _ => Ordering::SeqCst,
    }
}

/// What a compare-and-exchange reports when it finds `held` in the cell:
/// `Ok` with the value found if that is `expected`, `Err` with it otherwise.
pub open spec fn exchange_reply(held: bool, expected: bool) -> Result<bool, bool> {
    if held == expected {
        Ok(held)
    } else {
        Err(held)
    }
}

/// What a compare-and-exchange leaves in a cell that held `held`.
pub open spec fn exchange_leaves(held: bool, expected: bool, new: bool) -> bool {
    if held == expected {
        new
    } else {
        held
    }
}

/// What a swap leaves in the cell: the new value, whatever it held.
pub open spec fn swap_leaves(held: bool, new: bool) -> bool {
    new
}

/// What `fetch_or` leaves in a cell that held `held`.
pub open spec fn or_leaves(held: bool, val: bool) -> bool {
    held || val
}

/// What `fetch_and` leaves in a cell that held `held`.
pub open spec fn and_leaves(held: bool, val: bool) -> bool {
    held && val
}

/// What `fetch_xor` leaves in a cell that held `held`.
pub open spec fn xor_leaves(held: bool, val: bool) -> bool {
    held != val
}

/// What `count` equal compare-and-exchange requests leave in a cell that
/// held `held`, when nothing else writes to it. The requests are indivisible,
/// so they take effect one after another, in some order; being equal, every
/// order is this one.
pub open spec fn after_exchanges(held: bool, expected: bool, new: bool, count: nat) -> bool
    decreases count,
{
    if count == 0 {
        held
    } else {
        after_exchanges(exchange_leaves(held, expected, new), expected, new, (count - 1) as nat)
    }
}

/// How many of those requests are answered with `Ok`.
pub open spec fn successes(held: bool, expected: bool, new: bool, count: nat) -> nat
    decreases count,
{
    if count == 0 {
        0
    } else {
        let rest = successes(
            exchange_leaves(held, expected, new),
            expected,
            new,
            (count - 1) as nat,
        );
        if exchange_reply(held, expected) is Ok {
            rest + 1
        } else {
            rest
        }
    }
}

/// A compare-and-exchange can answer in two ways only, and which one it is
/// tells what the cell held: `Ok(expected)` on a cell that held `expected`,
/// `Err` with the other value on a cell that held the other value.
pub proof fn lemma_exchange_replies(held: bool, expected: bool)
    ensures
        held == expected ==> exchange_reply(held, expected) == Ok::<bool, bool>(expected),
        held != expected ==> exchange_reply(held, expected) == Err::<bool, bool>(!expected),
{
}

/// One toggle has one winner: when any number of threads ask to move the
/// cell from the value it holds to the other one, exactly one of them is
/// answered with `Ok`, and the cell then holds the other value.
pub proof fn lemma_one_toggle_one_winner(current: bool, count: nat)
    requires
        count >= 1,
    ensures
        successes(current, current, !current, count) == 1,
        after_exchanges(current, current, !current, count) == !current,
{
    lemma_late_toggles_lose(current, (count - 1) as nat);
}

/// Once the cell holds the other value, every further request for the same
/// toggle is answered with `Err` and changes nothing.
pub proof fn lemma_late_toggles_lose(current: bool, count: nat)
    ensures
        successes(!current, current, !current, count) == 0,
        after_exchanges(!current, current, !current, count) == !current,
    decreases count,
{
    if count > 0 {
        lemma_late_toggles_lose(current, (count - 1) as nat);
    }
}

/// After a `fetch_or` with `true` the cell holds `true`, whatever it held
/// before; a load that follows with no write in between returns it.
pub proof fn lemma_or_with_true_sets(held: bool)
    ensures
        or_leaves(held, true),
{
}

/// `covers` is an order on the five orderings: every ordering covers itself,
/// covering carries over, two orderings that cover each other are one, and
/// the sequentially consistent one covers all.
pub proof fn lemma_covers_is_an_order(a: Ordering, b: Ordering, c: Ordering)
    ensures
        covers(a, a),
        covers(a, b) && covers(b, c) ==> covers(a, c),
        covers(a, b) && covers(b, a) ==> a == b,
        covers(Ordering::SeqCst, a),
        covers(a, Ordering::Relaxed),
{
}

/// A boolean cell with indivisible operations, to be shared between threads.
pub struct SimpleAtomicBool {
    cell: AtomicBool,
}

impl SimpleAtomicBool {
    /// A cell that holds `value`.
    pub fn new(value: bool) -> (flag: Self)
    {
        SimpleAtomicBool { cell: AtomicBool::new(value) }
    }

    /// Reads the cell, with the ordering asked for or a stronger one where
    /// that one does not fit a read.
    pub fn load(&self, order: Ordering) -> (held: bool)
    {
        read_cell(&self.cell, read_order(order))
    }

    /// Overwrites the cell with `value`, with the ordering asked for or a
    /// stronger one where that one does not fit a write.
    pub fn store(&self, value: bool, order: Ordering)
    {
        write_cell(&self.cell, value, write_order(order))
    }

    /// Writes `new` if the cell holds `expected`, in one step. `Ok` carries
    /// the value found when the write happened, `Err` the value found when it
    /// did not: the reply is `exchange_reply` of the value found, and the
    /// cell then holds `exchange_leaves` of it.
    pub fn compare_exchange(
        &self,
        expected: bool,
        new: bool,
        success: Ordering,
        failure: Ordering,
    ) -> (reply: Result<bool, bool>)
        ensures
            reply == exchange_reply(expected, expected) || reply == exchange_reply(
                !expected,
                expected,
            ),
    {
        exchange_cell(&self.cell, expected, new, success, read_order(failure))
    }

    /// Replaces the value with `new` and returns the value replaced. The cell
    /// then holds `swap_leaves(previous, new)`, until the next write.
    pub fn swap(&self, new: bool, order: Ordering) -> (previous: bool)
    {
        self.cell.swap(new, order)
    }

    /// Replaces the value with its logical "or" with `val`; returns the value
    /// replaced. The cell then holds `or_leaves(previous, val)`, until the
    /// next write.
    pub fn fetch_or(&self, val: bool, order: Ordering) -> (previous: bool)
    {
        self.cell.fetch_or(val, order)
    }

    /// Replaces the value with its logical "and" with `val`; returns the
    /// value replaced. The cell then holds `and_leaves(previous, val)`, until
    /// the next write.
    pub fn fetch_and(&self, val: bool, order: Ordering) -> (previous: bool)
    {
        self.cell.fetch_and(val, order)
    }

    /// Replaces the value with its logical "xor" with `val`; returns the
    /// value replaced. The cell then holds `xor_leaves(previous, val)`, until
    /// the next write.
    pub fn fetch_xor(&self, val: bool, order: Ordering) -> (previous: bool)
    {
        self.cell.fetch_xor(val, order)
    }
}

} // verus!
