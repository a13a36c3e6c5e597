//! The locking protocol of the spin lock, and what it guarantees for every
//! order in which threads may take their steps.
//!
//! A thread wins the lock cell by a compare-and-exchange from unlocked to
//! locked and then enters the value's own lock; a thread that has spun long
//! enough queues for the value's own lock without the cell. Either way it
//! reaches the value only while it holds the guard. Dropping the guard
//! clears the cell, if the guard came by it, and then leaves the value's
//! lock. The steps of all threads are indivisible, so a run of the program
//! is one sequence of them.

use crate::atomic_bool::exchange_leaves;
use crate::atomic_bool::exchange_reply;
use vstd::prelude::*;

verus! {

/// Where a thread stands.
pub enum Phase {
    /// It has nothing to do with the mutex.
    Outside,
    /// It has won the lock cell and is about to enter the value's lock.
    WonCell,
    /// It holds a guard; `by_cell` says whether it came by the lock cell.
    Inside { by_cell: bool },
    /// It holds a guard and has read the value, to write back one more.
    HasRead { by_cell: bool, seen: int },
    /// Its guard is being dropped: the lock cell is cleared, the value's
    /// lock not yet left.
    Leaving,
}

/// One indivisible step of the thread with the given number.
pub enum Step {
    /// One attempt at the lock cell.
    Spin(nat),
    /// Enters the value's lock after winning the cell; the lock lets it in
    /// once no other thread is in it.
    Enter(nat),
    /// Gives the cell back after winning it, because the value's lock is
    /// taken: the end of an attempt that does not wait.
    GiveUp(nat),
    /// Enters the value's lock without the cell, after spinning long enough.
    Queue(nat),
    /// Reads the value through the guard.
    Read(nat),
    /// Writes back what it read, plus one.
    Write(nat),
    /// The first half of dropping the guard: clears the lock cell, if the
    /// guard came by it.
    ClearCell(nat),
    /// The second half: leaves the value's lock.
    Leave(nat),
}

/// A counter inside the mutex, as all threads together see it.
pub struct LockModel {
    /// The lock cell.
    pub locked: bool,
    /// The value inside the mutex.
    pub value: int,
    /// The threads that are not outside, each with its phase.
    pub busy: Map<nat, Phase>,
    /// How many increments the threads have completed.
    pub completed: nat,
}

impl LockModel {
    /// An unlocked mutex around `value`, every thread outside.
    pub open spec fn fresh(value: int) -> Self {
        LockModel { locked: false, value, busy: Map::empty(), completed: 0 }
    }

    /// The phase of `thread`.
    pub open spec fn phase(self, thread: nat) -> Phase {
        if self.busy.dom().contains(thread) {
            self.busy[thread]
        } else {
            Phase::Outside
        }
    }

    /// Whether `thread` holds a guard.
    pub open spec fn has_guard(self, thread: nat) -> bool {
        self.phase(thread) is Inside || self.phase(thread) is HasRead
    }

    /// Whether `thread` is in the value's lock.
    pub open spec fn in_lock(self, thread: nat) -> bool {
        self.has_guard(thread) || self.phase(thread) is Leaving
    }

    /// Whether `thread` is the one to clear the lock cell.
    pub open spec fn owns_cell(self, thread: nat) -> bool {
        match self.phase(thread) {
            Phase::WonCell => true,
            Phase::Inside { by_cell } => by_cell,
            Phase::HasRead { by_cell, seen } => by_cell,
            _ => false,
        }
    }

    /// Whether the value's lock is free.
    pub open spec fn nobody_in_lock(self) -> bool {
        forall|thread: nat| !self.in_lock(thread)
    }

    /// The model with `thread` in `phase` and the cell at `locked`.
    pub open spec fn moved(self, thread: nat, phase: Phase, locked: bool) -> Self {
        LockModel {
            locked,
            value: self.value,
            busy: self.busy.insert(thread, phase),
            completed: self.completed,
        }
    }

    /// The model after one step. A step that the thread cannot take where it
    /// stands changes nothing: a failed attempt at the cell leaves it alone,
    /// the value's lock lets nobody in while a thread is in it, and without
    /// the guard there is no way to the value.
    pub open spec fn after(self, step: Step) -> Self {
        match step {
            Step::Spin(thread) => {
                if self.phase(thread) is Outside && exchange_reply(self.locked, false) is Ok {
                    self.moved(thread, Phase::WonCell, exchange_leaves(self.locked, false, true))
                } else {
                    self
                }
            },
            Step::Enter(thread) => {
                if self.phase(thread) is WonCell && self.nobody_in_lock() {
                    self.moved(thread, Phase::Inside { by_cell: true }, self.locked)
                } else {
                    self
                }
            },
            Step::GiveUp(thread) => {
                if self.phase(thread) is WonCell && !self.nobody_in_lock() {
                    self.moved(thread, Phase::Outside, false)
                } else {
                    self
                }
            },
            Step::Queue(thread) => {
                if self.phase(thread) is Outside && self.nobody_in_lock() {
                    self.moved(thread, Phase::Inside { by_cell: false }, self.locked)
                } else {
                    self
                }
            },
            Step::Read(thread) => {
                match self.phase(thread) {
                    Phase::Inside { by_cell } => self.moved(
                        thread,
                        Phase::HasRead { by_cell, seen: self.value },
                        self.locked,
                    ),
                    _ => self,
                }
            },
            Step::Write(thread) => {
                match self.phase(thread) {
                    Phase::HasRead { by_cell, seen } => LockModel {
                        locked: self.locked,
                        value: seen + 1,
                        busy: self.busy.insert(thread, Phase::Inside { by_cell }),
                        completed: self.completed + 1,
                    },
                    _ => self,
                }
            },
            Step::ClearCell(thread) => {
                if self.has_guard(thread) {
                    self.moved(
                        thread,
                        Phase::Leaving,
                        if self.owns_cell(thread) {
                            false
                        } else {
                            self.locked
                        },
                    )
                } else {
                    self
                }
            },
            Step::Leave(thread) => {
                if self.phase(thread) is Leaving {
                    self.moved(thread, Phase::Outside, self.locked)
                } else {
                    self
                }
            },
        }
    }

    /// The model after the steps of `steps`, first to last.
    pub open spec fn after_all(self, steps: Seq<Step>) -> Self
        decreases steps.len(),
    {
        if steps.len() == 0 {
            self
        } else {
            self.after(steps[0]).after_all(steps.drop_first())
        }
    }

    /// What holds of the model at every moment of every run that starts with
    /// the value `start`: no two threads are in the value's lock, the lock
    /// cell is locked exactly while one thread is the one to clear it, a
    /// thread that has read the value has read the current one, and the
    /// value counts the completed increments.
    pub open spec fn in_order(self, start: int) -> bool {
        &&& forall|one: nat, other: nat| self.in_lock(one) && self.in_lock(other) ==> one == other
        &&& forall|one: nat, other: nat|
            self.owns_cell(one) && self.owns_cell(other) ==> one == other
        &&& forall|thread: nat| self.owns_cell(thread) ==> self.locked
        &&& self.locked ==> exists|thread: nat| self.owns_cell(thread)
        &&& forall|thread: nat| (#[trigger] self.phase(thread)) is HasRead ==> self.phase(
            thread,
        )->seen == self.value
        &&& self.value == start + self.completed
    }
}

/// A step of `thread` leaves the phases of the other threads alone.
proof fn lemma_others_stay(model: LockModel, step: Step, thread: nat)
    requires
        match step {
            Step::Spin(t) => t == thread,
            Step::Enter(t) => t == thread,
            Step::GiveUp(t) => t == thread,
            Step::Queue(t) => t == thread,
            Step::Read(t) => t == thread,
            Step::Write(t) => t == thread,
            Step::ClearCell(t) => t == thread,
            Step::Leave(t) => t == thread,
        },
    ensures
        forall|other: nat|
            other != thread ==> #[trigger] model.after(step).phase(other) == model.phase(other),
{
}

/// No step breaks the order.
pub proof fn lemma_step_keeps_order(model: LockModel, start: int, step: Step)
    requires
        model.in_order(start),
    ensures
        model.after(step).in_order(start),
{
    let next = model.after(step);
    let thread = match step {
        Step::Spin(t) => t,
        Step::Enter(t) => t,
        Step::GiveUp(t) => t,
        Step::Queue(t) => t,
        Step::Read(t) => t,
        Step::Write(t) => t,
        Step::ClearCell(t) => t,
        Step::Leave(t) => t,
    };
    lemma_others_stay(model, step, thread);
    if next != model {
        assert forall|one: nat, other: nat| next.in_lock(one) && next.in_lock(other) implies one
            == other by {
            if one != thread {
                assert(model.in_lock(one));
            }
            if other != thread {
                assert(model.in_lock(other));
            }
            if model.in_lock(thread) && one != thread {
                assert(model.in_lock(one));
            }
        }
        assert forall|one: nat, other: nat| next.owns_cell(one) && next.owns_cell(other) implies one
            == other by {
            if one != thread {
                assert(model.owns_cell(one));
            }
            if other != thread {
                assert(model.owns_cell(other));
            }
            if next.owns_cell(thread) && !(step is Spin) {
                assert(model.owns_cell(thread));
            }
        }
        assert forall|other: nat| next.owns_cell(other) implies next.locked by {
            if other != thread {
                assert(model.owns_cell(other));
                if model.owns_cell(thread) {
                    assert(other == thread);
                }
            } else if !(step is Spin) {
                assert(model.owns_cell(thread));
            }
        }
        if next.locked {
            if step is Spin {
                assert(next.owns_cell(thread));
            } else {
                assert(model.locked);
                let owner = choose|owner: nat| model.owns_cell(owner);
                if owner != thread {
                    assert(next.phase(owner) == model.phase(owner));
                }
                assert(next.owns_cell(owner));
            }
        }
        assert forall|other: nat| (#[trigger] next.phase(other)) is HasRead implies next.phase(
            other,
        )->seen == next.value by {
            if other != thread {
                assert(model.phase(other) is HasRead);
                assert(model.in_lock(other));
                if step is Write {
                    assert(model.in_lock(thread));
                }
            }
        }
        if step is Write {
            assert(model.phase(thread) is HasRead);
        }
    }
}

/// The order holds after every run, whatever the threads do and however
/// their steps interleave.
pub proof fn lemma_runs_keep_order(model: LockModel, start: int, steps: Seq<Step>)
    requires
        model.in_order(start),
    ensures
        model.after_all(steps).in_order(start),
    decreases steps.len(),
{
    if steps.len() > 0 {
        lemma_step_keeps_order(model, start, steps[0]);
        lemma_runs_keep_order(model.after(steps[0]), start, steps.drop_first());
    }
}

/// One guard at a time: at no moment of any run do two threads hold a
/// guard, and while one does, no other thread gets one, by the lock cell or
/// by queueing.
pub proof fn lemma_one_guard_at_a_time(start: int, steps: Seq<Step>, one: nat, other: nat)
    ensures
        ({
            let now = LockModel::fresh(start).after_all(steps);
            &&& now.has_guard(one) && now.has_guard(other) ==> one == other
            &&& now.has_guard(one) && one != other ==> {
                &&& !now.after(Step::Enter(other)).has_guard(other)
                &&& !now.after(Step::Queue(other)).has_guard(other)
            }
        }),
{
    let now = LockModel::fresh(start).after_all(steps);
    lemma_runs_keep_order(LockModel::fresh(start), start, steps);
    if now.has_guard(one) {
        assert(now.in_lock(one));
        if now.has_guard(other) {
            assert(now.in_lock(other));
        }
        if one != other {
            assert(!now.nobody_in_lock());
            assert(!now.in_lock(other));
        }
    }
}

/// No update is lost: after any run the value is the value at the start plus
/// the number of increments that the threads completed. With `n` threads
/// that each complete a thousand increments that is a thousand times `n`
/// more than at the start.
pub proof fn lemma_no_lost_update(start: int, steps: Seq<Step>)
    ensures
        ({
            let now = LockModel::fresh(start).after_all(steps);
            now.value == start + now.completed
        }),
{
    lemma_runs_keep_order(LockModel::fresh(start), start, steps);
}

/// The lock cell is never left locked by nobody: whenever it says locked,
/// one thread has won it and will clear it, and no other thread wins it
/// before that.
pub proof fn lemma_cell_has_one_owner(start: int, steps: Seq<Step>, thread: nat)
    ensures
        ({
            let now = LockModel::fresh(start).after_all(steps);
            &&& now.locked <==> exists|owner: nat| now.owns_cell(owner)
            &&& now.locked ==> now.after(Step::Spin(thread)) == now
        }),
{
    let now = LockModel::fresh(start).after_all(steps);
    lemma_runs_keep_order(LockModel::fresh(start), start, steps);
    if exists|owner: nat| now.owns_cell(owner) {
        let owner = choose|owner: nat| now.owns_cell(owner);
        assert(now.locked);
    }
}

/// A guard that is dropped frees the mutex: once the holder has cleared the
/// cell and left the value's lock, no thread is in it, and the next thread
/// that wins the cell enters.
pub proof fn lemma_unnobody_in_locks(start: int, steps: Seq<Step>, holder: nat, next: nat)
    requires
        LockModel::fresh(start).after_all(steps).has_guard(holder),
    ensures
        ({
            let freed = LockModel::fresh(start).after_all(steps).after(
                Step::ClearCell(holder),
            ).after(Step::Leave(holder));
            &&& freed.nobody_in_lock()
            &&& freed.phase(next) is Outside && !freed.locked ==> freed.after(
                Step::Spin(next),
            ).after(Step::Enter(next)).has_guard(next)
            &&& freed.phase(next) is Outside ==> freed.after(Step::Queue(next)).has_guard(next)
        }),
{
    let now = LockModel::fresh(start).after_all(steps);
    lemma_runs_keep_order(LockModel::fresh(start), start, steps);
    let clearing = now.after(Step::ClearCell(holder));
    let freed = clearing.after(Step::Leave(holder));
    lemma_others_stay(now, Step::ClearCell(holder), holder);
    lemma_others_stay(clearing, Step::Leave(holder), holder);
    assert(now.in_lock(holder));
    assert forall|thread: nat| !freed.in_lock(thread) by {
        if thread != holder {
            assert(freed.phase(thread) == now.phase(thread));
            if now.in_lock(thread) {
                assert(thread == holder);
            }
        }
    }
    if freed.phase(next) is Outside {
        let queued = freed.after(Step::Queue(next));
        assert(queued.has_guard(next));
        if !freed.locked {
            let won = freed.after(Step::Spin(next));
            lemma_others_stay(freed, Step::Spin(next), next);
            assert(won.phase(next) is WonCell);
            assert forall|thread: nat| !won.in_lock(thread) by {
                if thread != next {
                    assert(won.phase(thread) == freed.phase(thread));
                    assert(!freed.in_lock(thread));
                }
            }
            assert(won.nobody_in_lock());
        }
    }
}

} // verus!
