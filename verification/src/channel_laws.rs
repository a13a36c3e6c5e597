//! What follows from the rules of the channel for whole runs of sends and
//! receives, whatever threads they come from: under the lock they happen one
//! after another, so a run is a sequence.

use crate::channel::blocking_reply_of;
use crate::channel::ChannelModel;
use crate::channel::RecvError;
use crate::channel::SendError;
use crate::channel::TryRecvError;
use vstd::prelude::*;

verus! {

/// The channel after the items of `items` have been sent, first to last.
pub open spec fn after_sends<T>(start: ChannelModel<T>, items: Seq<T>) -> ChannelModel<T>
    decreases items.len(),
{
    if items.len() == 0 {
        start
    } else {
        after_sends(start.after_send(items[0]), items.drop_first())
    }
}

/// The channel after `count` receives.
pub open spec fn after_recvs<T>(start: ChannelModel<T>, count: nat) -> ChannelModel<T>
    decreases count,
{
    if count == 0 {
        start
    } else {
        after_recvs(start.after_recv(), (count - 1) as nat)
    }
}

/// The replies of `count` receives, first to last.
pub open spec fn replies<T>(start: ChannelModel<T>, count: nat) -> Seq<Result<T, TryRecvError>>
    decreases count,
{
    if count == 0 {
        Seq::empty()
    } else {
        seq![start.recv_reply()] + replies(start.after_recv(), (count - 1) as nat)
    }
}

/// Sends to an open channel line up behind what is queued, in the order in
/// which they were made, and leave the channel open.
pub proof fn lemma_sends_append<T>(start: ChannelModel<T>, items: Seq<T>)
    requires
        !start.closed,
    ensures
        after_sends(start, items).queue == start.queue + items,
        !after_sends(start, items).closed,
    decreases items.len(),
{
    if items.len() == 0 {
        assert(start.queue + items =~= start.queue);
    } else {
        let next = start.after_send(items[0]);
        lemma_sends_append(next, items.drop_first());
        assert(next.queue + items.drop_first() =~= start.queue + items);
    }
}

/// A closed channel takes nothing in: every send comes back with its item,
/// and the channel stays as it is.
pub proof fn lemma_closed_refuses<T>(start: ChannelModel<T>, items: Seq<T>)
    requires
        start.closed,
    ensures
        after_sends(start, items) == start,
        forall|item: T| #[trigger] start.send_reply(item) == Err::<(), SendError<T>>(SendError(item)),
    decreases items.len(),
{
    if items.len() > 0 {
        lemma_closed_refuses(start, items.drop_first());
    }
}

/// Receives take the queue from the front: as long as items are queued, the
/// receive number `index` replies with the item at `index`, open or closed.
pub proof fn lemma_recvs_take_front<T>(start: ChannelModel<T>, count: nat)
    requires
        count <= start.queue.len(),
    ensures
        after_recvs(start, count).queue == start.queue.subrange(
            count as int,
            start.queue.len() as int,
        ),
        after_recvs(start, count).closed == start.closed,
        replies(start, count).len() == count,
        forall|index: int|
            0 <= index < count ==> #[trigger] replies(start, count)[index] == Ok::<
                T,
                TryRecvError,
            >(start.queue[index]),
    decreases count,
{
    if count == 0 {
        assert(start.queue.subrange(0, start.queue.len() as int) =~= start.queue);
    } else {
        let next = start.after_recv();
        let rest = (count - 1) as nat;
        lemma_recvs_take_front(next, rest);
        assert(after_recvs(start, count).queue =~= start.queue.subrange(
            count as int,
            start.queue.len() as int,
        ));
        assert forall|index: int| 0 <= index < count implies #[trigger] replies(
            start,
            count,
        )[index] == Ok::<T, TryRecvError>(start.queue[index]) by {
            if index > 0 {
                assert(replies(start, count)[index] == replies(next, rest)[index - 1]);
                assert(next.queue[index - 1] == start.queue[index]);
            }
        }
    }
}

/// First in, first out: what is sent into a new channel comes out of as many
/// receives as there were sends, every item once and in the order of the
/// sends. The order of the sends is the order in which the senders got the
/// lock, so the sends of one sender keep their order among themselves.
pub proof fn lemma_first_in_first_out<T>(items: Seq<T>)
    ensures
        replies(after_sends(ChannelModel::<T>::fresh(), items), items.len()) == items.map_values(
            |item: T| Ok::<T, TryRecvError>(item),
        ),
        after_recvs(after_sends(ChannelModel::<T>::fresh(), items), items.len())
            == ChannelModel::<T>::fresh(),
{
    let fresh = ChannelModel::<T>::fresh();
    let full = after_sends(fresh, items);
    lemma_sends_append(fresh, items);
    assert(fresh.queue + items =~= items);
    lemma_recvs_take_front(full, items.len());
    assert(replies(full, items.len()) =~= items.map_values(|item: T| Ok::<T, TryRecvError>(item)));
    assert(after_recvs(full, items.len()).queue =~= Seq::<T>::empty());
}

/// Two sends, two receives: the first receive gives the first item, the
/// second the second.
pub proof fn lemma_two_in_order<T>(first: T, second: T)
    ensures
        ({
            let sent = ChannelModel::<T>::fresh().after_send(first).after_send(second);
            &&& sent.recv_reply() == Ok::<T, TryRecvError>(first)
            &&& sent.after_recv().recv_reply() == Ok::<T, TryRecvError>(second)
            &&& sent.after_recv().after_recv() == ChannelModel::<T>::fresh()
        }),
{
    let sent = ChannelModel::<T>::fresh().after_send(first).after_send(second);
    assert(sent.queue =~= seq![first, second]);
    assert(sent.after_recv().queue =~= seq![second]);
    assert(sent.after_recv().after_recv().queue =~= Seq::<T>::empty());
}

/// Closing is for good: no send, receive or second close opens the channel
/// again, and closing takes nothing out of the queue.
pub proof fn lemma_closed_stays_closed<T>(state: ChannelModel<T>, item: T)
    ensures
        state.after_close().closed,
        state.after_close().queue == state.queue,
        state.closed ==> state.after_send(item).closed,
        state.closed ==> state.after_recv().closed,
        state.closed ==> state.after_close() == state,
{
}

/// What was queued before the channel closed can still be received after it:
/// the receives reply as they would have on the open channel.
pub proof fn lemma_close_keeps_items<T>(state: ChannelModel<T>, count: nat)
    requires
        count <= state.queue.len(),
    ensures
        replies(state.after_close(), count) == replies(state, count),
{
    lemma_recvs_take_front(state, count);
    lemma_recvs_take_front(state.after_close(), count);
    assert(replies(state.after_close(), count) =~= replies(state, count));
}

/// With nothing queued, a receive that does not block says `Empty` while
/// the channel is open and `Disconnected` once it is closed, and takes
/// nothing.
pub proof fn lemma_empty_or_disconnected<T>(state: ChannelModel<T>)
    requires
        state.queue.len() == 0,
    ensures
        !state.closed ==> state.recv_reply() == Err::<T, TryRecvError>(TryRecvError::Empty),
        state.closed ==> state.recv_reply() == Err::<T, TryRecvError>(TryRecvError::Disconnected),
        state.after_recv() == state,
{
}

/// A receiver that waits on an empty channel is released when the channel
/// closes: it has nothing more to wait for, and its receive fails.
pub proof fn lemma_close_releases_receiver<T>(state: ChannelModel<T>)
    requires
        state.must_wait(),
    ensures
        !state.after_close().must_wait(),
        blocking_reply_of(state.after_close().recv_reply()) == Err::<T, RecvError>(RecvError),
{
}

/// A receiver that waits on an empty channel is released by the next send,
/// and its receive gives exactly the item sent.
pub proof fn lemma_send_releases_receiver<T>(state: ChannelModel<T>, item: T)
    requires
        state.must_wait(),
    ensures
        !state.after_send(item).must_wait(),
        blocking_reply_of(state.after_send(item).recv_reply()) == Ok::<T, RecvError>(item),
        state.after_send(item).after_recv() == state,
{
    assert(state.after_send(item).queue =~= seq![item]);
    assert(state.after_send(item).after_recv().queue =~= state.queue);
}

} // verus!
