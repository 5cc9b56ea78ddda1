//! What a channel does over time: every run of sends, receives and drops, and what
//! holds of all of them.

use vstd::prelude::*;
use crate::channel::TryRecvError;
use crate::fifo::after_pop;
use crate::fifo::after_push;

verus! {

/// Whether a send is taken: the receiver is there and the queue has room.
pub open spec fn send_taken<T>(q: Seq<T>, cap: nat, receiver_gone: bool) -> bool {
    !receiver_gone && q.len() < cap
}

/// The queue after a send of `v`.
pub open spec fn after_send<T>(q: Seq<T>, cap: nat, receiver_gone: bool, v: T) -> Seq<T> {
    if receiver_gone {
        q
    } else {
        after_push(q, cap, v)
    }
}

/// The answer to a receive: the oldest waiting value, or why there is none.
pub open spec fn recv_answer<T>(q: Seq<T>, sender_gone: bool) -> Result<T, TryRecvError> {
    if q.len() > 0 {
        Ok(q[0])
    } else if sender_gone {
        Err(TryRecvError::Disconnected)
    } else {
        Err(TryRecvError::Empty)
    }
}

/// One thing that can happen to a channel.
pub ghost enum ChannelOp<T> {
    /// The sender offers a value.
    Send(T),
    /// The receiver asks for the next value.
    Recv,
    /// The receiver is destroyed.
    DropReceiver,
    /// The sender is destroyed.
    DropSender,
}

/// What a run of operations has done so far.
pub ghost struct History<T> {
    /// The values waiting in the queue, oldest first.
    pub queue: Seq<T>,
    /// The values that the queue took from the sender, in the order of their sending.
    pub accepted: Seq<T>,
    /// The values that the receiver got, in the order of their receipt.
    pub delivered: Seq<T>,
    /// Whether the receiver has been destroyed.
    pub receiver_gone: bool,
    /// Whether the sender has been destroyed.
    pub sender_gone: bool,
}

/// The history of a channel on which nothing has happened yet.
pub open spec fn fresh<T>() -> History<T> {
    History {
        queue: Seq::empty(),
        accepted: Seq::empty(),
        delivered: Seq::empty(),
        receiver_gone: false,
        sender_gone: false,
    }
}

/// The history after one more operation on a channel of capacity `cap`. An end that is
/// gone does nothing any more.
pub open spec fn apply<T>(h: History<T>, cap: nat, op: ChannelOp<T>) -> History<T> {
    match op {
        ChannelOp::Send(v) => if h.sender_gone {
            h
        } else {
            History {
                queue: after_send(h.queue, cap, h.receiver_gone, v),
                accepted: if send_taken(h.queue, cap, h.receiver_gone) {
                    h.accepted.push(v)
                } else {
                    h.accepted
                },
                ..h
            }
        },
        ChannelOp::Recv => if h.receiver_gone {
            h
        } else {
            History {
                queue: after_pop(h.queue),
                delivered: match recv_answer(h.queue, h.sender_gone) {
                    Ok(v) => h.delivered.push(v),
                    Err(_) => h.delivered,
                },
                ..h
            }
        },
        ChannelOp::DropReceiver => History { receiver_gone: true, ..h },
        ChannelOp::DropSender => History { sender_gone: true, ..h },
    }
}

/// The history after the operations `ops`, in order, on a fresh channel of capacity `cap`.
pub open spec fn replay<T>(cap: nat, ops: Seq<ChannelOp<T>>) -> History<T>
    decreases ops.len(),
{
    if ops.len() == 0 {
        fresh()
    } else {
        apply(replay(cap, ops.drop_last()), cap, ops.last())
    }
}

/// One send for each of `values`, in order.
pub open spec fn sends<T>(values: Seq<T>) -> Seq<ChannelOp<T>> {
    Seq::new(values.len(), |i: int| ChannelOp::Send(values[i]))
}

/// `n` receives.
pub open spec fn receives<T>(n: nat) -> Seq<ChannelOp<T>> {
    Seq::new(n, |i: int| ChannelOp::Recv)
}

/// Channel FIFO. Whatever the two ends do, in whatever order: what the receiver got,
/// followed by what still waits, is what the queue took from the sender, in the order
/// of sending. Nothing is lost, duplicated or reordered, and never more than `cap`
/// values wait. So once the queue is drained the receiver has got exactly the sequence
/// that was sent.
pub proof fn lemma_fifo<T>(cap: nat, ops: Seq<ChannelOp<T>>)
    ensures
        replay(cap, ops).accepted == replay(cap, ops).delivered + replay(cap, ops).queue,
        replay(cap, ops).queue.len() <= cap,
        replay(cap, ops).queue.len() == 0 ==> replay(cap, ops).delivered == replay(
            cap,
            ops,
        ).accepted,
    decreases ops.len(),
{
    if ops.len() == 0 {
        assert(fresh::<T>().accepted =~= fresh::<T>().delivered + fresh::<T>().queue);
    } else {
        let after = replay(cap, ops);
        lemma_fifo(cap, ops.drop_last());
        assert(after.accepted =~= after.delivered + after.queue);
    }
    let h = replay(cap, ops);
    if h.queue.len() == 0 {
        assert(h.delivered + h.queue =~= h.delivered);
    }
}

/// Sending `values` to a fresh channel with room for all of them and then receiving as
/// many times yields `values`, in order, and leaves the queue empty.
pub proof fn lemma_send_then_receive<T>(cap: nat, values: Seq<T>)
    requires
        values.len() <= cap,
    ensures
        replay(cap, sends(values) + receives(values.len())).delivered == values,
        replay(cap, sends(values) + receives(values.len())).queue.len() == 0,
{
    lemma_sends(cap, values);
    lemma_receives(cap, sends(values), values.len());
    let h = replay(cap, sends(values));
    assert(h.queue.skip(values.len() as int) =~= Seq::<T>::empty());
    assert(h.queue.take(values.len() as int) =~= values);
    assert(h.delivered + values =~= values);
}

/// Gone is final. An end that was destroyed stays destroyed, whatever happens next; and
/// once the receiver is gone nothing more is taken from the sender or delivered.
pub proof fn lemma_gone_is_final<T>(cap: nat, ops: Seq<ChannelOp<T>>, more: Seq<ChannelOp<T>>)
    ensures
        replay(cap, ops).receiver_gone ==> replay(cap, ops + more).receiver_gone,
        replay(cap, ops).sender_gone ==> replay(cap, ops + more).sender_gone,
        replay(cap, ops).receiver_gone ==> replay(cap, ops + more).accepted == replay(
            cap,
            ops,
        ).accepted,
        replay(cap, ops).receiver_gone ==> replay(cap, ops + more).delivered == replay(
            cap,
            ops,
        ).delivered,
    decreases more.len(),
{
    if more.len() == 0 {
        assert(ops + more =~= ops);
    } else {
        lemma_gone_is_final(cap, ops, more.drop_last());
        assert((ops + more).drop_last() =~= ops + more.drop_last());
        assert((ops + more).last() == more.last());
    }
}

/// A sender that is gone is noticed only after all that it sent has been delivered: a
/// receive that is answered with `Disconnected` leaves nothing behind.
pub proof fn lemma_disconnect_after_drain<T>(cap: nat, ops: Seq<ChannelOp<T>>)
    requires
        !replay(cap, ops).receiver_gone,
        recv_answer(replay(cap, ops).queue, replay(cap, ops).sender_gone) == Err::<
            T,
            TryRecvError,
        >(TryRecvError::Disconnected),
    ensures
        replay(cap, ops).delivered == replay(cap, ops).accepted,
        replay(cap, ops.push(ChannelOp::Recv)).delivered == replay(cap, ops).accepted,
{
    lemma_fifo(cap, ops);
    assert(ops.push(ChannelOp::Recv).drop_last() =~= ops);
}

proof fn lemma_sends<T>(cap: nat, values: Seq<T>)
    requires
        values.len() <= cap,
    ensures
        replay(cap, sends(values)) == (History { queue: values, accepted: values, ..fresh() }),
    decreases values.len(),
{
    if values.len() > 0 {
        let shorter = values.drop_last();
        lemma_sends(cap, shorter);
        assert(sends(values).drop_last() =~= sends(shorter));
        assert(sends(values).last() == ChannelOp::Send(values.last()));
        assert(shorter.push(values.last()) =~= values);
    } else {
        assert(values =~= Seq::<T>::empty());
    }
}

proof fn lemma_receives<T>(cap: nat, prefix: Seq<ChannelOp<T>>, n: nat)
    requires
        n <= replay(cap, prefix).queue.len(),
        !replay(cap, prefix).receiver_gone,
    ensures
        replay(cap, prefix + receives(n)) == (History {
            queue: replay(cap, prefix).queue.skip(n as int),
            delivered: replay(cap, prefix).delivered + replay(cap, prefix).queue.take(n as int),
            ..replay(cap, prefix)
        }),
    decreases n,
{
    let start = replay(cap, prefix);
    if n == 0 {
        assert(prefix + receives::<T>(0) =~= prefix);
        assert(start.queue.skip(0) =~= start.queue);
        assert(start.delivered + start.queue.take(0) =~= start.delivered);
    } else {
        let m = (n - 1) as nat;
        lemma_receives(cap, prefix, m);
        let ops = prefix + receives::<T>(n);
        assert(ops.drop_last() =~= prefix + receives::<T>(m));
        assert(ops.last() == ChannelOp::<T>::Recv);
        let mid = replay(cap, prefix + receives::<T>(m));
        assert(mid.queue.len() > 0);
        assert(mid.queue[0] == start.queue[m as int]);
        assert(mid.queue.drop_first() =~= start.queue.skip(n as int));
        assert(start.queue.take(m as int).push(start.queue[m as int]) =~= start.queue.take(
            n as int,
        ));
        assert(mid.delivered.push(mid.queue[0]) =~= start.delivered + start.queue.take(n as int));
    }
}

} // verus!
