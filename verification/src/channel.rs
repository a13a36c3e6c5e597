//! An unbounded first-in, first-out channel from any number of senders to one
//! receiver.
//!
//! The rules of the channel are those of [`ChannelState`], a plain value with
//! exact contracts. [`Sender`] and [`Receiver`] share one such value behind a
//! lock and a condition variable.

use crate::sync::held;
use crate::sync::hold;
use crate::sync::wake_all;
use crate::sync::wake_one;
use std::collections::VecDeque;
use std::sync::Arc;
use std::sync::Condvar;
use std::sync::Mutex;
use std::sync::MutexGuard;
use vstd::prelude::*;

verus! {

/// The item that could not be sent, handed back.
#[derive(Debug)]
pub struct SendError<T>(pub T);

/// A blocking receive found the channel empty and closed.
#[derive(Debug)]
pub struct RecvError;

/// Why a receive that does not block came back without an item.
#[derive(Debug)]
pub enum TryRecvError {
    /// Nothing is queued, and the channel is still open.
    Empty,
    /// Nothing is queued, and the channel is closed.
    Disconnected,
}

/// What a channel is, in contracts: the pending items, oldest first, and
/// whether it has been closed.
pub struct ChannelModel<T> {
    pub queue: Seq<T>,
    pub closed: bool,
}

impl<T> ChannelModel<T> {
    /// The channel as `channel()` makes it.
    pub open spec fn fresh() -> Self {
        ChannelModel { queue: Seq::empty(), closed: false }
    }

    /// The channel after a send of `item`: a closed channel takes nothing.
    pub open spec fn after_send(self, item: T) -> Self {
        if self.closed {
            self
        } else {
            ChannelModel { queue: self.queue.push(item), closed: false }
        }
    }

    /// What a send of `item` reports.
    pub open spec fn send_reply(self, item: T) -> Result<(), SendError<T>> {
        if self.closed {
            Err(SendError(item))
        } else {
            Ok(())
        }
    }

    /// The channel after one receive: the oldest item leaves.
    pub open spec fn after_recv(self) -> Self {
        if self.queue.len() > 0 {
            ChannelModel { queue: self.queue.drop_first(), closed: self.closed }
        } else {
            self
        }
    }

    /// What a receive that does not block reports.
    pub open spec fn recv_reply(self) -> Result<T, TryRecvError> {
        if self.queue.len() > 0 {
            Ok(self.queue[0])
        } else if self.closed {
            Err(TryRecvError::Disconnected)
        } else {
            Err(TryRecvError::Empty)
        }
    }

    /// The channel after either side has gone: closed, the queue untouched.
    pub open spec fn after_close(self) -> Self {
        ChannelModel { queue: self.queue, closed: true }
    }

    /// A blocking receive has to wait: nothing is queued and more may come.
    pub open spec fn must_wait(self) -> bool {
        self.queue.len() == 0 && !self.closed
    }
}

/// The state that the senders and the receiver share: the queue and the
/// closed flag.
pub struct ChannelState<T> {
    queue: VecDeque<T>,
    closed: bool,
}

impl<T> View for ChannelState<T> {
    type V = ChannelModel<T>;

    closed spec fn view(&self) -> ChannelModel<T> {
        ChannelModel { queue: self.queue@, closed: self.closed }
    }
}

impl<T> ChannelState<T> {
    /// An open channel with nothing queued.
    pub fn new() -> (state: Self)
        ensures
            state@ == ChannelModel::<T>::fresh(),
    {
        ChannelState { queue: VecDeque::new(), closed: false }
    }

    /// Appends `item` unless the channel is closed; a closed channel hands
    /// the item back.
    pub fn push(&mut self, item: T) -> (reply: Result<(), SendError<T>>)
        ensures
            reply == old(self)@.send_reply(item),
            final(self)@ == old(self)@.after_send(item),
    {
        if self.closed {
            Err(SendError(item))
        } else {
            self.queue.push_back(item);
            Ok(())
        }
    }

    /// Takes the oldest item. With nothing queued it says whether more may
    /// come (`Empty`) or not (`Disconnected`).
    pub fn take(&mut self) -> (reply: Result<T, TryRecvError>)
        ensures
            reply == old(self)@.recv_reply(),
            final(self)@ == old(self)@.after_recv(),
    {
        match self.queue.pop_front() {
            Some(item) => {
                assert(self.queue@ =~= old(self).queue@.drop_first());
                Ok(item)
            },
            None => {
                if self.closed {
                    Err(TryRecvError::Disconnected)
                } else {
                    Err(TryRecvError::Empty)
                }
            },
        }
    }

    /// One look at the channel by a receiver that is prepared to wait: the
    /// reply of `take` goes into `found`, and the result says whether the
    /// receiver has to wait and look again.
    pub fn poll(&mut self, found: &mut Result<T, TryRecvError>) -> (again: bool)
        ensures
            *final(found) == old(self)@.recv_reply(),
            final(self)@ == old(self)@.after_recv(),
            again == old(self)@.must_wait(),
            again == (*final(found) matches Err(TryRecvError::Empty)),
    {
        *found = self.take();
        match found {
            Err(TryRecvError::Empty) => true,
            _ => false,
        }
    }

    /// Closes the channel for good. What is queued stays receivable.
    pub fn close(&mut self)
        ensures
            final(self)@ == old(self)@.after_close(),
        opens_invariants none
        no_unwind
    {
        self.closed = true;
    }

    /// Whether the channel has been closed.
    pub fn is_closed(&self) -> (closed: bool)
        ensures
            closed == self@.closed,
    {
        self.closed
    }

    /// How many items are queued.
    pub fn len(&self) -> (n: usize)
        ensures
            n == self@.queue.len(),
    {
        self.queue.len()
    }
}

/// What every handle of one channel points at.
#[verifier::reject_recursive_types(T)]
struct Inner<T> {
    state: Mutex<ChannelState<T>>,
    available: Condvar,
}

impl<T> Inner<T> {
    /// Takes the lock on the shared state. A lock that a panicking thread
    /// left poisoned closes the channel: what is queued can still be
    /// received, nothing more is taken in.
    fn enter(&self) -> (guard: MutexGuard<'_, ChannelState<T>>)
        opens_invariants none
        no_unwind
    {
        match hold(&self.state) {
            Ok(guard) => guard,
            Err(guard) => {
                let mut guard = guard;
                held(&mut guard).close();
                guard
            },
        }
    }

    /// Closes the channel and wakes whoever waits on it.
    fn shut(&self)
        opens_invariants none
        no_unwind
    {
        let mut guard = self.enter();
        held(&mut guard).close();
        wake_all(&self.available);
    }
}

/// `Condvar::wait_while` with `ChannelState::poll` as its condition: gives
/// the lock up, sleeps until a notification, takes the lock again and polls,
/// until a poll says that there is nothing to wait for. `Ok` holds the guard
/// after such a poll, so `found` then holds an item or `Disconnected`. `Err`
/// holds the guard of a poisoned lock: the standard library stops waiting on
/// such a lock, whatever the last poll said.
#[verifier::external_body]
fn wait_while_empty<'a, T>(
    available: &Condvar,
    guard: MutexGuard<'a, ChannelState<T>>,
    found: &mut Result<T, TryRecvError>,
) -> (woken: Result<MutexGuard<'a, ChannelState<T>>, MutexGuard<'a, ChannelState<T>>>)
    ensures
        woken is Ok ==> !(*final(found) matches Err(TryRecvError::Empty)),
{
    match available.wait_while(guard, |state| state.poll(found)) {
        Ok(guard) => Ok(guard),
        Err(poisoned) => Err(poisoned.into_inner()),
    }
}

/// What a blocking receive reports once it no longer has to wait.
pub open spec fn blocking_reply_of<T>(found: Result<T, TryRecvError>) -> Result<T, RecvError> {
    match found {
        Ok(item) => Ok(item),
        Err(_) => Err(RecvError),
    }
}

/// Turns the reply of the last poll into the reply of a blocking receive: an
/// item is handed on, and a closed, empty channel is an error.
pub fn blocking_reply<T>(found: Result<T, TryRecvError>) -> (reply: Result<T, RecvError>)
    requires
        !(found matches Err(TryRecvError::Empty)),
    ensures
        reply == blocking_reply_of(found),
{
    match found {
        Ok(item) => Ok(item),
        Err(_) => Err(RecvError),
    }
}

/// The sending side as a whole: every clone of a `Sender` shares one of
/// these, and it goes when the last of them goes.
#[verifier::reject_recursive_types(T)]
struct SendingSide<T> {
    inner: Arc<Inner<T>>,
}

impl<T> Drop for SendingSide<T> {
    /// The last sender is gone: the channel closes, and a receiver that
    /// waits is woken to see it.
    fn drop(&mut self)
        opens_invariants none
        no_unwind
    {
        self.inner.shut();
    }
}

/// A handle that puts items into the channel. It can be cloned; the channel
/// closes when the last clone is dropped.
#[verifier::reject_recursive_types(T)]
pub struct Sender<T> {
    side: Arc<SendingSide<T>>,
}

/// The handle that takes items out of the channel. Dropping it closes the
/// channel.
#[verifier::reject_recursive_types(T)]
pub struct Receiver<T> {
    inner: Arc<Inner<T>>,
}

impl<T> Clone for Sender<T> {
    /// Another handle to the same channel.
    fn clone(&self) -> (other: Self)
        ensures
            other == *self,
    {
        Sender { side: self.side.clone() }
    }
}

impl<T> Sender<T> {
    /// Whether what this sender sends goes to `receiver`: the two are ends of
    /// one channel.
    pub closed spec fn feeds(&self, receiver: &Receiver<T>) -> bool {
        self.side.inner == receiver.inner
    }

    /// Appends `item` to the queue and wakes the receiver if it waits. On a
    /// closed channel nothing is queued and the item comes back in the error.
    /// Never blocks beyond the short hold of the lock.
    pub fn send(&self, item: T) -> (reply: Result<(), SendError<T>>)
        ensures
            reply == Ok::<(), SendError<T>>(()) || reply == Err::<(), SendError<T>>(SendError(item)),
    {
        let mut guard = self.side.inner.enter();
        let reply = held(&mut guard).push(item);
        if reply.is_ok() {
            wake_one(&self.side.inner.available);
        }
        reply
    }
}

impl<T> Receiver<T> {
    /// Takes the oldest item, waiting for one while the channel is open and
    /// empty. Fails once the channel is closed and empty.
    pub fn recv(&self) -> (reply: Result<T, RecvError>)
    {
        let guard = self.inner.enter();
        let mut found: Result<T, TryRecvError> = Err(TryRecvError::Empty);
        match wait_while_empty(&self.inner.available, guard, &mut found) {
            Ok(_guard) => {},
            Err(guard) => {
                let mut guard = guard;
                let again = match &found {
                    Err(TryRecvError::Empty) => true,
                    _ => false,
                };
                if again {
                    let state = held(&mut guard);
                    state.close();
                    found = state.take();
                }
            },
        }
        blocking_reply(found)
    }

    /// Takes the oldest item if there is one, and says why not otherwise.
    /// Never waits for an item.
    pub fn try_recv(&self) -> (reply: Result<T, TryRecvError>)
    {
        let mut guard = self.inner.enter();
        held(&mut guard).take()
    }
}

impl<T> Drop for Receiver<T> {
    /// The receiver is gone: the channel closes, and every later send
    /// fails.
    fn drop(&mut self)
        opens_invariants none
        no_unwind
    {
        self.inner.shut();
    }
}

/// Makes a channel, open and empty, and hands out its two ends.
pub fn channel<T>() -> (ends: (Sender<T>, Receiver<T>))
    ensures
        ends.0.feeds(&ends.1),
{
    let inner = Arc::new(Inner { state: Mutex::new(ChannelState::new()), available: Condvar::new() });
    let side = Arc::new(SendingSide { inner: inner.clone() });
    (Sender { side }, Receiver { inner })
}

} // verus!
